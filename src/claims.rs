use vstd::prelude::*;
use vstd::string::StringExecFns;

use crate::permission::PermissionType;
use crate::scope::{Scope, ScopeView};

verus! {

/// Custom claims of an identity token: the service account it was issued for.
#[derive(Debug, Clone, PartialEq, Eq)]
pub struct SvcClaims {
    pub svc_name: String,
}

/// Custom claims of a registry access token: the authorized scopes.
#[derive(Debug, Clone, PartialEq, Eq)]
pub struct DockerClaims {
    pub access: Vec<Scope>,
}

pub open spec fn hex_digit(d: int) -> Seq<char> {
    "0123456789abcdef"@.subrange(d, d + 1)
}

/// The JSON escape of one character.
pub open spec fn escape_char(c: char) -> Seq<char> {
    if c == '"' {
        "\\\""@
    } else if c == '\\' {
        "\\\\"@
    } else if (c as u32) < 0x20 {
        "\\u00"@ + hex_digit((c as u32) as int / 16) + hex_digit((c as u32) as int % 16)
    } else {
        seq![c]
    }
}

/// The JSON escape of a character sequence.
pub open spec fn escape(s: Seq<char>) -> Seq<char>
    decreases s.len(),
{
    if s.len() == 0 {
        Seq::empty()
    } else {
        escape(s.drop_last()) + escape_char(s.last())
    }
}

/// The JSON string literal holding `s`.
pub open spec fn json_str(s: Seq<char>) -> Seq<char> {
    "\""@ + escape(s) + "\""@
}

/// The JSON array of action names.
pub open spec fn actions_json(a: Seq<PermissionType>) -> Seq<char>
    decreases a.len(),
{
    if a.len() == 0 {
        Seq::empty()
    } else if a.len() == 1 {
        json_str(a[0].spec_text())
    } else {
        actions_json(a.drop_last()) + ","@ + json_str(a.last().spec_text())
    }
}

/// The JSON object of one scope, with its kind under the wire name `type`.
pub open spec fn scope_json(s: ScopeView) -> Seq<char> {
    "{\"type\":"@ + json_str(s.kind) + ",\"name\":"@ + json_str(s.name) + ",\"actions\":["@
        + actions_json(s.actions) + "]}"@
}

/// The comma-separated JSON objects of a list of scopes.
pub open spec fn scopes_json(s: Seq<ScopeView>) -> Seq<char>
    decreases s.len(),
{
    if s.len() == 0 {
        Seq::empty()
    } else if s.len() == 1 {
        scope_json(s[0])
    } else {
        scopes_json(s.drop_last()) + ","@ + scope_json(s.last())
    }
}

pub open spec fn views(s: Seq<Scope>) -> Seq<ScopeView> {
    s.map_values(|x: Scope| x@)
}

/// The `access` claim of a registry token: the JSON array of its scopes.
pub open spec fn access_json(access: Seq<ScopeView>) -> Seq<char> {
    "["@ + scopes_json(access) + "]"@
}

/// Appends the JSON string literal holding `s`.
pub fn push_json_str(out: &mut String, s: &str)
    ensures
        final(out)@ == old(out)@ + json_str(s@),
{
    out.append("\"");
    let ghost start = out@;
    let n = s.unicode_len();
    let mut i: usize = 0;
    while i < n
        invariant
            n == s@.len(),
            i <= n,
            out@ == start + escape(s@.subrange(0, i as int)),
        decreases n - i,
    {
        let c = s.get_char(i);
        let ghost before = out@;
        if c == '"' {
            out.append("\\\"");
        } else if c == '\\' {
            out.append("\\\\");
        } else if (c as u32) < 0x20 {
            let hex = "0123456789abcdef";
            proof {
                reveal_strlit("0123456789abcdef");
            }
            let code = c as u32;
            out.append("\\u00");
            out.append(hex.substring_char((code / 16) as usize, (code / 16 + 1) as usize));
            out.append(hex.substring_char((code % 16) as usize, (code % 16 + 1) as usize));
        } else {
            out.append(s.substring_char(i, i + 1));
        }
        assert(s@.subrange(0, i + 1).drop_last() =~= s@.subrange(0, i as int));
        assert(out@ =~= before + escape_char(c));
        i = i + 1;
    }
    assert(s@.subrange(0, n as int) =~= s@);
    out.append("\"");
    assert(out@ =~= old(out)@ + json_str(s@));
}

fn push_actions_json(out: &mut String, a: &Vec<PermissionType>)
    ensures
        final(out)@ == old(out)@ + actions_json(a@),
{
    let ghost start = out@;
    let mut i: usize = 0;
    assert(a@.take(0) =~= Seq::<PermissionType>::empty());
    while i < a.len()
        invariant
            i <= a@.len(),
            out@ == start + actions_json(a@.take(i as int)),
        decreases a.len() - i,
    {
        let ghost before = out@;
        if i > 0 {
            out.append(",");
        }
        push_json_str(out, a[i].as_str());
        assert(a@.take(i + 1).drop_last() =~= a@.take(i as int));
        if i == 0 {
            assert(a@.take(1) =~= seq![a@[0]]);
            assert(out@ =~= start + actions_json(a@.take(1)));
        } else {
            assert(out@ =~= start + actions_json(a@.take(i + 1)));
        }
        i = i + 1;
    }
    assert(a@.take(a@.len() as int) =~= a@);
}

impl Scope {
    /// The scope as a JSON object, as it stands in a registry token.
    pub fn to_json(&self) -> (r: String)
        ensures
            r@ == scope_json(self@),
    {
        let mut out = String::new();
        out.append("{\"type\":");
        push_json_str(&mut out, self.kind.as_str());
        out.append(",\"name\":");
        push_json_str(&mut out, self.name.as_str());
        out.append(",\"actions\":[");
        push_actions_json(&mut out, &self.actions);
        out.append("]}");
        assert(out@ =~= scope_json(self@));
        out
    }
}

impl DockerClaims {
    /// The `access` claim as a JSON array.
    pub fn to_json(&self) -> (r: String)
        ensures
            r@ == access_json(views(self.access@)),
    {
        let mut out = String::new();
        out.append("[");
        let ghost start = out@;
        let ghost all = views(self.access@);
        let mut i: usize = 0;
        assert(all.take(0) =~= Seq::<ScopeView>::empty());
        while i < self.access.len()
            invariant
                i <= self.access@.len(),
                all == views(self.access@),
                out@ == start + scopes_json(all.take(i as int)),
            decreases self.access.len() - i,
        {
            let ghost before = out@;
            if i > 0 {
                out.append(",");
            }
            let piece = self.access[i].to_json();
            out.append(piece.as_str());
            assert(all.take(i + 1).drop_last() =~= all.take(i as int));
            assert(all[i as int] == self.access@[i as int]@);
            if i == 0 {
                assert(all.take(1) =~= seq![all[0]]);
                assert(out@ =~= start + scopes_json(all.take(1)));
            } else {
                assert(out@ =~= start + scopes_json(all.take(i + 1)));
            }
            i = i + 1;
        }
        assert(all.take(all.len() as int) =~= all);
        out.append("]");
        assert(out@ =~= access_json(views(self.access@)));
        out
    }
}

} // verus!
