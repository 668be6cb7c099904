//! The greeting routes of a small web service: each handler's response, and
//! the table of routes the service mounts at `/`.

use vstd::prelude::*;

verus! {

/// `GET /`
pub fn index() -> (r: &'static str)
    ensures
        r@ == "Hello, world!"@,
{
    "Hello, world!"
}

/// `GET /hi`
pub fn hi() -> (r: &'static str)
    ensures
        r@ == "hi"@,
{
    "hi"
}

/// `GET /hi/<name>`: `"hi "` followed by the name.
pub fn hi_name(name: &str) -> (r: String)
    ensures
        r@ == "hi "@ + name@,
{
    let mut r = String::from_str("hi ");
    r.append(name);
    r
}

/// `GET /bye`
pub fn bye() -> (r: &'static str)
    ensures
        r@ == "bye"@,
{
    "bye"
}

/// `GET /bye/<name>`: `"bye "` followed by the name.
pub fn bye_name(name: &str) -> (r: String)
    ensures
        r@ == "bye "@ + name@,
{
    let mut r = String::from_str("bye ");
    r.append(name);
    r
}

/// The routes the service mounts at `/`, in the order of the handlers above.
pub fn rocket() -> (routes: Vec<&'static str>)
    ensures
        routes@.len() == 5,
        routes@[0]@ == "/"@,
        routes@[1]@ == "/hi"@,
        routes@[2]@ == "/hi/<name>"@,
        routes@[3]@ == "/bye"@,
        routes@[4]@ == "/bye/<name>"@,
{
    vec!["/", "/hi", "/hi/<name>", "/bye", "/bye/<name>"]
}

} // verus!
