//! Connection bootstrap: derivation of the administrative connection
//! string, and the two-attempt fallback decision.
//!
//! The service first dials the target database; when that fails it dials
//! the administrative database instead, whose connection string is
//! derived by replacing the target database field inside the original
//! connection string. A third attempt does not exist: a second failure
//! is fatal.

use vstd::prelude::*;
use vstd::string::*;

verus! {

/// Upper bound on concurrently open connections in the shared pool.
pub const MAX_CONNECTIONS: u32 = 5;

/// The pattern occurs in `s` at position `i`.
pub open spec fn match_at(s: Seq<char>, pat: Seq<char>, i: int) -> bool {
    &&& 0 <= i
    &&& i + pat.len() <= s.len()
    &&& forall|k: int| 0 <= k < pat.len() ==> s[i + k] == pat[k]
}

/// Position of the first occurrence of `pat` in `s`, or `None`.
#[verifier::loop_isolation(false)]
pub fn find_first(s: &str, pat: &str) -> (r: Option<usize>)
    ensures
        match r {
            Some(i) => match_at(s@, pat@, i as int) && (forall|j: int|
                0 <= j < i ==> !match_at(s@, pat@, j)),
            None => forall|j: int| !match_at(s@, pat@, j),
        },
{
    let n = s.unicode_len();
    let m = pat.unicode_len();
    if m > n {
        return None;
    }
    let mut i: usize = 0;
    while i <= n - m
        invariant
            m <= n,
            i <= n - m + 1,
            forall|j: int| 0 <= j < i ==> !match_at(s@, pat@, j),
        decreases n - m - i + 1,
    {
        let mut k: usize = 0;
        let mut matched = true;
        while k < m
            invariant
                i + m <= n,
                k <= m,
                matched ==> forall|k2: int| 0 <= k2 < k ==> s@[i + k2] == pat@[k2],
                !matched ==> !match_at(s@, pat@, i as int),
            decreases m - k,
        {
            if s.get_char(i + k) != pat.get_char(k) {
                matched = false;
                k = m;
            } else {
                k = k + 1;
            }
        }
        if matched {
            return Some(i);
        }
        i = i + 1;
    }
    assert(forall|j: int| j >= i ==> !match_at(s@, pat@, j));
    None
}

/// Replace the first occurrence of `pat` in `s` by `rep`; a string
/// without an occurrence comes back unchanged.
pub fn replace_first(s: &str, pat: &str, rep: &str) -> (r: String)
    ensures
        (forall|j: int| !match_at(s@, pat@, j)) ==> r@ == s@,
        (exists|j: int| match_at(s@, pat@, j)) ==> (exists|i: int|
            {
                &&& match_at(s@, pat@, i)
                &&& forall|j: int| 0 <= j < i ==> !match_at(s@, pat@, j)
                &&& r@ == s@.subrange(0, i) + rep@ + s@.subrange(
                    i + pat@.len() as int,
                    s@.len() as int,
                )
            }),
{
    match find_first(s, pat) {
        None => s.to_owned(),
        Some(i) => {
            let n = s.unicode_len();
            let m = pat.unicode_len();
            let prefix = s.substring_char(0, i);
            let suffix = s.substring_char(i + m, n);
            let mut r = String::from_str(prefix);
            r.append(rep);
            r.append(suffix);
            proof {
                assert(match_at(s@, pat@, i as int) && (forall|j: int|
                    0 <= j < i ==> !match_at(s@, pat@, j)) && r@ == s@.subrange(0, i as int)
                    + rep@ + s@.subrange(i as int + pat@.len() as int, s@.len() as int));
            }
            r
        },
    }
}

/// The textual field naming the target database inside the connection
/// string.
pub open spec fn target_db_field() -> Seq<char> {
    "database=RustCrudApp"@
}

/// The same field naming the administrative database, which is known to
/// exist on the server.
pub open spec fn admin_db_field() -> Seq<char> {
    "database=master"@
}

/// Derive the administrative connection string: the first occurrence of
/// the target-database field is replaced by the administrative one. A
/// connection string that does not contain the field in exactly that
/// textual form comes back unchanged, so the fallback then redials the
/// same (likely still failing) target.
pub fn admin_url(database_url: &str) -> (r: String)
    ensures
        (forall|j: int| !match_at(database_url@, target_db_field(), j)) ==> r@ == database_url@,
        (exists|j: int| match_at(database_url@, target_db_field(), j)) ==> (exists|i: int|
            {
                &&& match_at(database_url@, target_db_field(), i)
                &&& forall|j: int| 0 <= j < i ==> !match_at(database_url@, target_db_field(), j)
                &&& r@ == database_url@.subrange(0, i) + admin_db_field()
                    + database_url@.subrange(
                    i + target_db_field().len() as int,
                    database_url@.len() as int,
                )
            }),
{
    let r = replace_first(database_url, "database=RustCrudApp", "database=master");
    proof {
        assert(("database=RustCrudApp")@ == target_db_field());
        assert(("database=master")@ == admin_db_field());
        if forall|j: int| !match_at(database_url@, target_db_field(), j) {
            assert forall|j: int| !match_at(database_url@, ("database=RustCrudApp")@, j) by {
                assert(!match_at(database_url@, target_db_field(), j));
            }
        }
    }
    r
}

/// Where the bootstrap stands: dialing the target database, dialing the
/// administrative database after a first failure, holding a usable pool,
/// or aborted after both attempts failed.
#[derive(Clone, Copy, Debug, PartialEq, Eq, Structural)]
pub enum BootPhase {
    TryTarget,
    TryFallback,
    Ready,
    Aborted,
}

/// One step of the bootstrap: from a dialing phase and the attempt's
/// outcome to the next phase. A target failure falls back once; a
/// fallback failure is fatal.
pub fn boot_step(phase: BootPhase, connected: bool) -> (r: BootPhase)
    requires
        phase is TryTarget || phase is TryFallback,
    ensures
        phase is TryTarget && connected ==> r is Ready,
        phase is TryTarget && !connected ==> r is TryFallback,
        phase is TryFallback && connected ==> r is Ready,
        phase is TryFallback && !connected ==> r is Aborted,
{
    match phase {
        BootPhase::TryTarget => if connected {
            BootPhase::Ready
        } else {
            BootPhase::TryFallback
        },
        _ => if connected {
            BootPhase::Ready
        } else {
            BootPhase::Aborted
        },
    }
}

/// The human-readable status line each bootstrap transition emits; the
/// empty string stands for no output (a successful fallback attempt) and
/// the fallback-failure line is the fatal diagnostic.
pub fn boot_message(phase: BootPhase, connected: bool) -> (r: &'static str)
    requires
        phase is TryTarget || phase is TryFallback,
    ensures
        phase is TryTarget && connected ==> r@ == "Connected to RustCrudApp database."@,
        phase is TryTarget && !connected ==> r@
            == "Failed to connect to RustCrudApp. Attempting to connect to 'master' for initialization..."@,
        phase is TryFallback && connected ==> r@ == ""@,
        phase is TryFallback && !connected ==> r@
            == "Failed to connect to master database. Please check your connection string."@,
{
    match phase {
        BootPhase::TryTarget => if connected {
            "Connected to RustCrudApp database."
        } else {
            "Failed to connect to RustCrudApp. Attempting to connect to 'master' for initialization..."
        },
        _ => if connected {
            ""
        } else {
            "Failed to connect to master database. Please check your connection string."
        },
    }
}

} // verus!
