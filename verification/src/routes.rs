//! The HTTP surface of the facade: the mounted routes and the fixed
//! greeting bodies. The routes are described as data; serving them is the
//! embedding program's job.

use vstd::prelude::*;

verus! {

/// One mounted route: its path and whether it takes the credential
/// query parameters `username` and `password`.
pub struct Route {
    pub path: String,
    pub takes_credentials: bool,
}

/// Body of `GET /`.
pub fn index_greeting() -> (r: String)
    ensures
        r@ == "Hello, rustech!\n"@,
{
    "Hello, rustech!\n".to_owned()
}

/// Body of a successful `GET /cas_login`.
pub fn cas_login_greeting() -> (r: String)
    ensures
        r@ == "Hello world!"@,
{
    "Hello world!".to_owned()
}

/// The four routes the facade mounts, in mounting order.
pub fn rocket() -> (r: Vec<Route>)
    ensures
        r@.len() == 4,
        r@[0].path@ == "/"@ && !r@[0].takes_credentials,
        r@[1].path@ == "/cas_login"@ && r@[1].takes_credentials,
        r@[2].path@ == "/basic_info"@ && r@[2].takes_credentials,
        r@[3].path@ == "/semester_gpa"@ && r@[3].takes_credentials,
{
    let mut v: Vec<Route> = Vec::new();
    v.push(Route { path: "/".to_owned(), takes_credentials: false });
    v.push(Route { path: "/cas_login".to_owned(), takes_credentials: true });
    v.push(Route { path: "/basic_info".to_owned(), takes_credentials: true });
    v.push(Route { path: "/semester_gpa".to_owned(), takes_credentials: true });
    v
}

} // verus!
