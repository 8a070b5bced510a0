use vstd::prelude::*;

use crate::error::Error;
use crate::permission::{Permission, PermissionType};
use crate::text::{find_char, index_of, lemma_index_of, str_eq, trim, trim_str};

verus! {

/// A requested access unit: `kind:name:action[,action]*`.
#[derive(Debug, Clone, PartialEq, Eq)]
pub struct Scope {
    pub kind: String,
    pub name: String,
    pub actions: Vec<PermissionType>,
}

/// The mathematical value of a [`Scope`].
pub struct ScopeView {
    pub kind: Seq<char>,
    pub name: Seq<char>,
    pub actions: Seq<PermissionType>,
}

impl View for Scope {
    type V = ScopeView;

    open spec fn view(&self) -> ScopeView {
        ScopeView { kind: self.kind@, name: self.name@, actions: self.actions@ }
    }
}

pub open spec fn repository_kind() -> Seq<char> {
    seq!['r', 'e', 'p', 'o', 's', 'i', 't', 'o', 'r', 'y']
}

pub open spec fn wildcard() -> Seq<char> {
    seq!['*']
}

/// The actions named by one comma-separated token: none for a blank token.
pub open spec fn token_actions(t: Seq<char>) -> Option<Seq<PermissionType>> {
    let w = trim(t);
    if w.len() == 0 {
        Some(Seq::empty())
    } else {
        match PermissionType::spec_from_action(w) {
            Some(p) => Some(seq![p]),
            None => None,
        }
    }
}

pub open spec fn join_actions(
    a: Option<Seq<PermissionType>>,
    b: Option<Seq<PermissionType>>,
) -> Option<Seq<PermissionType>> {
    match (a, b) {
        (Some(x), Some(y)) => Some(x + y),
        _ => None,
    }
}

/// The actions of a comma-separated list, or `None` when a token is not an action.
pub open spec fn actions_of(s: Seq<char>) -> Option<Seq<PermissionType>>
    decreases s.len(),
{
    match index_of(s, ',') {
        Some(k) => if 0 <= k < s.len() {
            join_actions(token_actions(s.take(k)), actions_of(s.skip(k + 1)))
        } else {
            None
        },
        None => token_actions(s),
    }
}

/// The scope that `s` denotes, or `None` when `s` is malformed: the kind runs up to the
/// first `:`, the name up to the second, the actions are the rest; all three are
/// non-empty and at least one action is named.
pub open spec fn parse_scope(s: Seq<char>) -> Option<ScopeView> {
    match index_of(s, ':') {
        None => None,
        Some(i) => {
            let kind = s.take(i);
            let rest = s.skip(i + 1);
            match index_of(rest, ':') {
                None => None,
                Some(j) => {
                    let name = rest.take(j);
                    let raw = rest.skip(j + 1);
                    if kind.len() == 0 || name.len() == 0 || raw.len() == 0 {
                        None
                    } else {
                        match actions_of(raw) {
                            Some(a) => if a.len() > 0 {
                                Some(ScopeView { kind, name, actions: a })
                            } else {
                                None
                            },
                            None => None,
                        }
                    }
                },
            }
        },
    }
}

/// Whether permission `p` grants action `a` on the repository `name`.
pub open spec fn grants(p: Permission, name: Seq<char>, a: PermissionType) -> bool {
    (p.subject@ == name || p.subject@ == wildcard()) && p.permission == a
}

/// Whether some permission of `perms` grants `a` on `name`.
pub open spec fn holds(perms: Seq<Permission>, name: Seq<char>, a: PermissionType) -> bool {
    exists|i: int| 0 <= i < perms.len() && grants(perms[i], name, a)
}

/// The actions held on `name`: the union over the permissions whose subject is `name` or `*`.
pub open spec fn held_actions(perms: Seq<Permission>, name: Seq<char>) -> Set<PermissionType> {
    Set::new(|a: PermissionType| holds(perms, name, a))
}

/// Whether `perms` authorize scope `s`: a repository scope whose every action is held.
pub open spec fn authorizes(perms: Seq<Permission>, s: ScopeView) -> bool {
    &&& s.kind == repository_kind()
    &&& forall|j: int| 0 <= j < s.actions.len() ==> holds(perms, s.name, #[trigger] s.actions[j])
}

fn parse_token(t: &str) -> (r: Result<Option<PermissionType>, Error>)
    ensures
        match token_actions(t@) {
            Some(a) => r is Ok && (match r->Ok_0 {
                Some(p) => a == seq![p],
                None => a.len() == 0,
            }),
            None => r is Err && r->Err_0 is BadRequest,
        },
{
    let w = trim_str(t);
    if w.unicode_len() == 0 {
        Ok(None)
    } else {
        let p = PermissionType::from_actions(w)?;
        Ok(Some(p))
    }
}

fn parse_actions(raw: &str) -> (r: Result<Vec<PermissionType>, Error>)
    ensures
        match actions_of(raw@) {
            Some(a) => r is Ok && r->Ok_0@ == a,
            None => r is Err && r->Err_0 is BadRequest,
        },
{
    let mut actions: Vec<PermissionType> = Vec::new();
    let mut rest: &str = raw;
    loop
        invariant
            actions_of(raw@) == join_actions(Some(actions@), actions_of(rest@)),
        decreases rest@.len(),
    {
        proof {
            lemma_index_of(rest@, ',');
        }
        let n = rest.unicode_len();
        match find_char(rest, ',') {
            Some(k) => {
                let tok = rest.substring_char(0, k);
                let next = rest.substring_char(k + 1, n);
                assert(tok@ =~= rest@.take(k as int));
                assert(next@ =~= rest@.skip(k + 1));
                let ghost before = actions@;
                let got = parse_token(tok);
                match got {
                    Ok(Some(p)) => {
                        actions.push(p);
                    },
                    Ok(None) => {},
                    Err(e) => {
                        return Err(e);
                    },
                }
                proof {
                    let t = token_actions(tok@)->Some_0;
                    assert(actions@ =~= before + t);
                    if let Some(b) = actions_of(next@) {
                        assert(before + (t + b) =~= (before + t) + b);
                    }
                }
                rest = next;
            },
            None => {
                let ghost before = actions@;
                let got = parse_token(rest);
                match got {
                    Ok(Some(p)) => {
                        actions.push(p);
                    },
                    Ok(None) => {},
                    Err(e) => {
                        return Err(e);
                    },
                }
                assert(actions@ =~= before + token_actions(rest@)->Some_0);
                return Ok(actions);
            },
        }
    }
}

impl Scope {
    /// Parses `kind:name:action[,action]*`. Every malformed input is a bad request.
    pub fn parse_str(input: &str) -> (r: Result<Scope, Error>)
        ensures
            match parse_scope(input@) {
                Some(v) => r is Ok && r->Ok_0@ == v,
                None => r is Err && r->Err_0 is BadRequest,
            },
    {
        proof {
            lemma_index_of(input@, ':');
        }
        let n = input.unicode_len();
        let i = match find_char(input, ':') {
            Some(i) => i,
            None => {
                return Err(Error::BadRequest("missing name"));
            },
        };
        let kind = input.substring_char(0, i);
        let rest = input.substring_char(i + 1, n);
        assert(kind@ =~= input@.take(i as int));
        assert(rest@ =~= input@.skip(i + 1));
        proof {
            lemma_index_of(rest@, ':');
        }
        let m = rest.unicode_len();
        let j = match find_char(rest, ':') {
            Some(j) => j,
            None => {
                return Err(Error::BadRequest("missing actions"));
            },
        };
        let name = rest.substring_char(0, j);
        let raw = rest.substring_char(j + 1, m);
        assert(name@ =~= rest@.take(j as int));
        assert(raw@ =~= rest@.skip(j + 1));
        if kind.unicode_len() == 0 || name.unicode_len() == 0 || raw.unicode_len() == 0 {
            return Err(Error::BadRequest("kind, name, and actions must be non-empty"));
        }
        let actions = parse_actions(raw)?;
        if actions.len() == 0 {
            return Err(Error::BadRequest("no valid actions found"));
        }
        Ok(Scope { kind: kind.to_owned(), name: name.to_owned(), actions })
    }

    /// Whether `perms` authorize this scope.
    pub fn is_authorized(&self, perms: &Vec<Permission>) -> (r: bool)
        ensures
            r == authorizes(perms@, self@),
    {
        proof {
            reveal_strlit("repository");
            assert("repository"@ =~= repository_kind());
        }
        if !str_eq(self.kind.as_str(), "repository") {
            return false;
        }
        let mut j: usize = 0;
        while j < self.actions.len()
            invariant
                self.kind@ == repository_kind(),
                j <= self.actions@.len(),
                forall|k: int| 0 <= k < j ==> holds(perms@, self.name@, #[trigger] self.actions@[k]),
            decreases self.actions.len() - j,
        {
            if !holds_action(perms, self.name.as_str(), self.actions[j]) {
                assert(!holds(perms@, self@.name, self@.actions[j as int]));
                return false;
            }
            j = j + 1;
        }
        true
    }
}

/// Whether some permission of `perms` grants `a` on `name`.
pub fn holds_action(perms: &Vec<Permission>, name: &str, a: PermissionType) -> (r: bool)
    ensures
        r == holds(perms@, name@, a),
{
    proof {
        reveal_strlit("*");
        assert("*"@ =~= wildcard());
    }
    let mut i: usize = 0;
    while i < perms.len()
        invariant
            i <= perms@.len(),
            forall|k: int| 0 <= k < i ==> !grants(#[trigger] perms@[k], name@, a),
        decreases perms.len() - i,
    {
        proof {
            reveal_strlit("*");
            assert("*"@ =~= wildcard());
        }
        let p = &perms[i];
        if p.permission == a && (str_eq(p.subject.as_str(), name) || str_eq(p.subject.as_str(), "*")) {
            assert(grants(perms@[i as int], name@, a));
            return true;
        }
        i = i + 1;
    }
    false
}

/// Checks every requested scope; one unauthorized scope rejects the whole request.
pub fn authorize_all(scopes: &Vec<Scope>, perms: &Vec<Permission>) -> (r: Result<(), Error>)
    ensures
        r is Ok <==> forall|i: int| 0 <= i < scopes@.len() ==> authorizes(perms@, #[trigger] scopes@[i]@),
        r is Err ==> r->Err_0 is Unauthorized,
{
    let mut i: usize = 0;
    while i < scopes.len()
        invariant
            i <= scopes@.len(),
            forall|k: int| 0 <= k < i ==> authorizes(perms@, #[trigger] scopes@[k]@),
        decreases scopes.len() - i,
    {
        if !scopes[i].is_authorized(perms) {
            return Err(Error::Unauthorized("Insufficient Permissions"));
        }
        i = i + 1;
    }
    Ok(())
}

/// A scope is authorized exactly when it is a repository scope and the set of its
/// actions is a subset of the actions held on its name, which is the union of the
/// actions of the permissions whose subject is that name or `*`.
pub proof fn lemma_subset_law(perms: Seq<Permission>, s: ScopeView)
    ensures
        authorizes(perms, s) <==> (s.kind == repository_kind() && s.actions.to_set().subset_of(
            held_actions(perms, s.name),
        )),
{
    if s.kind == repository_kind() && s.actions.to_set().subset_of(held_actions(perms, s.name)) {
        assert forall|j: int| 0 <= j < s.actions.len() implies holds(
            perms,
            s.name,
            #[trigger] s.actions[j],
        ) by {
            assert(s.actions.to_set().contains(s.actions[j]));
        }
    }
    if authorizes(perms, s) {
        assert forall|a: PermissionType| s.actions.to_set().contains(a) implies #[trigger] held_actions(
            perms,
            s.name,
        ).contains(a) by {
            let j = choose|j: int| 0 <= j < s.actions.len() && s.actions[j] == a;
            assert(holds(perms, s.name, s.actions[j]));
        }
    }
}

/// The repository scope with one action on `name`.
pub open spec fn repository_scope(name: Seq<char>, a: PermissionType) -> ScopeView {
    ScopeView { kind: repository_kind(), name, actions: seq![a] }
}

/// Wildcard and exact-name permissions add up: holding `(*, pull)` and `(x, push)`
/// authorizes pull and push on `x` and pull on any other name `y`, never push on `y`.
pub proof fn lemma_wildcard_additive(perms: Seq<Permission>, x: Seq<char>, y: Seq<char>)
    requires
        perms.len() == 2,
        perms[0].subject@ == wildcard(),
        perms[0].permission == PermissionType::Pull,
        perms[1].subject@ == x,
        perms[1].permission == PermissionType::Push,
        x != wildcard(),
        y != x,
    ensures
        authorizes(perms, repository_scope(x, PermissionType::Pull)),
        authorizes(perms, repository_scope(x, PermissionType::Push)),
        authorizes(perms, repository_scope(y, PermissionType::Pull)),
        !authorizes(perms, repository_scope(y, PermissionType::Push)),
{
    assert(grants(perms[0], x, PermissionType::Pull));
    assert(grants(perms[1], x, PermissionType::Push));
    assert(grants(perms[0], y, PermissionType::Pull));
    assert(holds(perms, x, PermissionType::Pull));
    assert(holds(perms, x, PermissionType::Push));
    assert(holds(perms, y, PermissionType::Pull));
    assert(repository_scope(y, PermissionType::Push).actions[0] == PermissionType::Push);
    assert(!holds(perms, y, PermissionType::Push)) by {
        if holds(perms, y, PermissionType::Push) {
            let i = choose|i: int| 0 <= i < perms.len() && grants(perms[i], y, PermissionType::Push);
            assert(i == 0 || i == 1);
        }
    }
}

} // verus!
