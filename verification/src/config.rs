//! Configuration decisions, made eagerly before any network or storage
//! access: which resolver strategy to run, with which options, and which
//! storage backend a database location names.
//!
//! Option values arrive as plain bytes; reading the environment or the
//! command line happens outside the crate.

use vstd::prelude::*;
use crate::errors::ConfigurationError;

verus! {

/// Which resolver strategy a caller asked for.
#[derive(Clone, Copy, Debug, PartialEq, Eq, Structural)]
pub enum ResolverMode {
    Full,
    Thin,
    Raw,
}

/// Which storage backend a database location names.
#[derive(Clone, Copy, Debug, PartialEq, Eq, Structural)]
pub enum DbBackend {
    Postgres,
    Sqlite,
}

/// A checked resolver configuration: each strategy with exactly the
/// options it needs.
#[derive(Debug)]
pub enum ResolverPlan {
    /// Fetch, validate and store locally; needs the store location.
    Full { store_location: Vec<u8> },
    /// Delegate to a gateway; needs the gateway's resolve endpoint,
    /// given without a transport scheme (the caller injects one).
    Thin { gateway_endpoint: Vec<u8> },
    /// Fetch without validation; needs nothing.
    Raw,
}

/// `p` is a prefix of `s`.
pub open spec fn is_prefix(p: Seq<u8>, s: Seq<u8>) -> bool {
    p.len() <= s.len() && s.take(p.len() as int) == p
}

/// The bytes contain `"://"`, i.e. they already carry a transport scheme.
pub open spec fn has_scheme(s: Seq<u8>) -> bool {
    exists|i: int| 0 <= i && i + 2 < s.len() && #[trigger] s[i] == 58 && s[i + 1] == 47 && s[i + 2] == 47
}

/// Whether `p` is a prefix of `s`.
pub fn check_prefix(p: &Vec<u8>, s: &Vec<u8>) -> (b: bool)
    ensures
        b == is_prefix(p@, s@),
{
    if p.len() > s.len() {
        proof {
            assert(!is_prefix(p@, s@));
        }
        return false;
    }
    let mut i: usize = 0;
    while i < p.len()
        invariant
            i <= p@.len() <= s@.len(),
            forall|k: int| 0 <= k < i ==> p@[k] == s@[k],
        decreases p.len() - i,
    {
        if p[i] != s[i] {
            proof {
                assert(s@.take(p@.len() as int)[i as int] != p@[i as int]);
            }
            return false;
        }
        i = i + 1;
    }
    proof {
        assert(s@.take(p@.len() as int) =~= p@);
    }
    true
}

/// Whether the bytes already carry a transport scheme (`"://"`).
pub fn check_scheme(s: &Vec<u8>) -> (b: bool)
    ensures
        b == has_scheme(s@),
{
    if s.len() < 3 {
        return false;
    }
    let mut i: usize = 0;
    while i < s.len() - 2
        invariant
            s@.len() >= 3,
            i <= s@.len(),
            forall|k: int| 0 <= k < i ==> !(#[trigger] s@[k] == 58 && k + 2 < s@.len() && s@[k + 1] == 47 && s@[k + 2] == 47),
        decreases s.len() - i,
    {
        if s[i] == 58 && s[i + 1] == 47 && s[i + 2] == 47 {
            return true;
        }
        i = i + 1;
    }
    proof {
        assert forall|k: int| !(0 <= k && k + 2 < s@.len() && #[trigger] s@[k] == 58 && s@[k + 1]
            == 47 && s@[k + 2] == 47) by {
            if 0 <= k && k + 2 < s@.len() {
                assert(k < i);
            }
        }
    }
    false
}

/// The resolver mode a name picks, if any: `full`, `thin` or `raw`.
pub fn parse_resolver_mode(name: &Vec<u8>) -> (r: Option<ResolverMode>)
    ensures
        (r == Some(ResolverMode::Full)) == (name@ =~= seq![102u8, 117u8, 108u8, 108u8]),
        (r == Some(ResolverMode::Thin)) == (name@ =~= seq![116u8, 104u8, 105u8, 110u8]),
        (r == Some(ResolverMode::Raw)) == (name@ =~= seq![114u8, 97u8, 119u8]),
{
    if name.len() == 4 && name[0] == 102 && name[1] == 117 && name[2] == 108 && name[3] == 108 {
        proof {
            assert(name@ =~= seq![102u8, 117u8, 108u8, 108u8]);
        }
        Some(ResolverMode::Full)
    } else if name.len() == 4 && name[0] == 116 && name[1] == 104 && name[2] == 105 && name[3]
        == 110 {
        proof {
            assert(name@ =~= seq![116u8, 104u8, 105u8, 110u8]);
        }
        Some(ResolverMode::Thin)
    } else if name.len() == 3 && name[0] == 114 && name[1] == 97 && name[2] == 119 {
        proof {
            assert(name@ =~= seq![114u8, 97u8, 119u8]);
        }
        Some(ResolverMode::Raw)
    } else {
        None
    }
}

/// Checks a resolver configuration eagerly, before any network or storage
/// access.  A full resolver requires a store location (a gateway endpoint,
/// if also given, is ignored); a thin resolver requires a gateway endpoint
/// that does not already carry a transport scheme, since the caller
/// injects one; a raw resolver requires nothing.
pub fn plan_resolver(
    mode: ResolverMode,
    store_location: Option<Vec<u8>>,
    gateway_endpoint: Option<Vec<u8>>,
) -> (r: Result<ResolverPlan, ConfigurationError>)
    ensures
        (match mode {
            ResolverMode::Full => (match store_location {
                Some(loc) => r matches Ok(p) && p matches ResolverPlan::Full { store_location }
                    && store_location@ == loc@,
                None => r == Err::<ResolverPlan, ConfigurationError>(
                    ConfigurationError::MissingRequiredOption,
                ),
            }),
            ResolverMode::Thin => (match gateway_endpoint {
                Some(ep) => if has_scheme(ep@) {
                    r == Err::<ResolverPlan, ConfigurationError>(
                        ConfigurationError::ConflictingOptions,
                    )
                } else {
                    r matches Ok(p) && p matches ResolverPlan::Thin { gateway_endpoint }
                        && gateway_endpoint@ == ep@
                },
                None => r == Err::<ResolverPlan, ConfigurationError>(
                    ConfigurationError::MissingRequiredOption,
                ),
            }),
            ResolverMode::Raw => r matches Ok(p) && p is Raw,
        }),
{
    match mode {
        ResolverMode::Full => {
            match store_location {
                Some(loc) => Ok(ResolverPlan::Full { store_location: loc }),
                None => Err(ConfigurationError::MissingRequiredOption),
            }
        },
        ResolverMode::Thin => {
            match gateway_endpoint {
                Some(ep) => {
                    if check_scheme(&ep) {
                        Err(ConfigurationError::ConflictingOptions)
                    } else {
                        Ok(ResolverPlan::Thin { gateway_endpoint: ep })
                    }
                },
                None => Err(ConfigurationError::MissingRequiredOption),
            }
        },
        ResolverMode::Raw => Ok(ResolverPlan::Raw),
    }
}

/// The storage backend a database location names: `postgres://` or
/// `sqlite://`, or nothing recognizable.
pub fn select_backend(database_url: &Vec<u8>) -> (r: Option<DbBackend>)
    ensures
        (r == Some(DbBackend::Postgres)) == is_prefix(
            seq![112u8, 111u8, 115u8, 116u8, 103u8, 114u8, 101u8, 115u8, 58u8, 47u8, 47u8],
            database_url@,
        ),
        (r == Some(DbBackend::Sqlite)) == (!is_prefix(
            seq![112u8, 111u8, 115u8, 116u8, 103u8, 114u8, 101u8, 115u8, 58u8, 47u8, 47u8],
            database_url@,
        ) && is_prefix(
            seq![115u8, 113u8, 108u8, 105u8, 116u8, 101u8, 58u8, 47u8, 47u8],
            database_url@,
        )),
{
    let postgres: Vec<u8> = vec![112, 111, 115, 116, 103, 114, 101, 115, 58, 47, 47];
    let sqlite: Vec<u8> = vec![115, 113, 108, 105, 116, 101, 58, 47, 47];
    proof {
        assert(postgres@ =~= seq![
            112u8, 111u8, 115u8, 116u8, 103u8, 114u8, 101u8, 115u8, 58u8, 47u8, 47u8,
        ]);
        assert(sqlite@ =~= seq![115u8, 113u8, 108u8, 105u8, 116u8, 101u8, 58u8, 47u8, 47u8]);
    }
    if check_prefix(&postgres, database_url) {
        Some(DbBackend::Postgres)
    } else if check_prefix(&sqlite, database_url) {
        Some(DbBackend::Sqlite)
    } else {
        None
    }
}

} // verus!
