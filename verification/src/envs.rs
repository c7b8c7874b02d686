//! The fixed table of deployment environments and their base API URLs.

use vstd::prelude::*;

use crate::strings::str_eq;

verus! {

/// The base API URL configured for a deployment environment name, or `None`
/// for an unrecognized name.
pub open spec fn env_base_url(name: Seq<char>) -> Option<Seq<char>> {
    if name == "local"@ {
        Some("http://localhost:5000/esap-api/v1"@)
    } else if name == "dev"@ {
        Some("https://dev-apigw.edf-esap.com/esap-api/v1"@)
    } else if name == "stg"@ {
        Some("https://stg-apigw.edf-esap.com/esap-api/v1"@)
    } else if name == "prd"@ {
        Some("https://apigw.edf-esap.com/esap-api/v1"@)
    } else {
        None
    }
}

/// Looks an environment name up in the fixed table: returns the base URL for
/// `local`, `dev`, `stg` and `prd`, and `None` for every other name. A run
/// aborts when either of its two environment names resolves to `None`.
pub fn resolve(name: &str) -> (r: Option<String>)
    ensures
        r matches Some(u) ==> env_base_url(name@) == Some(u@),
        r is None ==> env_base_url(name@) is None,
{
    if str_eq(name, "local") {
        Some("http://localhost:5000/esap-api/v1".to_owned())
    } else if str_eq(name, "dev") {
        Some("https://dev-apigw.edf-esap.com/esap-api/v1".to_owned())
    } else if str_eq(name, "stg") {
        Some("https://stg-apigw.edf-esap.com/esap-api/v1".to_owned())
    } else if str_eq(name, "prd") {
        Some("https://apigw.edf-esap.com/esap-api/v1".to_owned())
    } else {
        None
    }
}

/// Builds the environment table as (name, base URL) pairs, one entry per
/// recognized environment, each agreeing with `env_base_url`.
pub fn build_envs_hash() -> (r: Vec<(String, String)>)
    ensures
        r@.len() == 4,
        r@[0].0@ == "local"@,
        r@[1].0@ == "dev"@,
        r@[2].0@ == "stg"@,
        r@[3].0@ == "prd"@,
        forall|i: int| 0 <= i < 4 ==> #[trigger] env_base_url(r@[i].0@) == Some(r@[i].1@),
{
    let mut envs: Vec<(String, String)> = Vec::new();
    envs.push(("local".to_owned(), "http://localhost:5000/esap-api/v1".to_owned()));
    envs.push(("dev".to_owned(), "https://dev-apigw.edf-esap.com/esap-api/v1".to_owned()));
    envs.push(("stg".to_owned(), "https://stg-apigw.edf-esap.com/esap-api/v1".to_owned()));
    envs.push(("prd".to_owned(), "https://apigw.edf-esap.com/esap-api/v1".to_owned()));
    proof {
        reveal_strlit("local");
        reveal_strlit("dev");
        reveal_strlit("stg");
        reveal_strlit("prd");
        assert(envs@.len() == 4);
        assert("stg"@ != "dev"@) by {
            assert("stg"@[0] == 's' && "dev"@[0] == 'd');
        }
        assert("prd"@ != "dev"@) by {
            assert("prd"@[0] == 'p' && "dev"@[0] == 'd');
        }
        assert("prd"@ != "stg"@) by {
            assert("prd"@[0] == 'p' && "stg"@[0] == 's');
        }
        assert(envs@[0].0@ == "local"@);
        assert(envs@[1].0@ == "dev"@);
        assert(envs@[2].0@ == "stg"@);
        assert(envs@[3].0@ == "prd"@);
        assert(env_base_url(envs@[0].0@) == Some(envs@[0].1@));
        assert(env_base_url(envs@[1].0@) == Some(envs@[1].1@));
        assert(env_base_url(envs@[2].0@) == Some(envs@[2].1@));
        assert(env_base_url(envs@[3].0@) == Some(envs@[3].1@));
        assert forall|i: int| 0 <= i < 4 implies #[trigger] env_base_url(envs@[i].0@) == Some(
            envs@[i].1@,
        ) by {
            assert(i == 0 || i == 1 || i == 2 || i == 3);
        }
    }
    envs
}

} // verus!
