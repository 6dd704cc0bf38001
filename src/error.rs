use vstd::prelude::*;

verus! {

/// Errors that originate in the environment layer.
#[derive(Debug, Clone, PartialEq, Eq)]
pub enum Error {
    /// A native call returned a non-zero status: the solver's diagnostic
    /// text for the handle, and the status code.
    FromAPI(String, i32),
    /// A string could not become a C string: the byte offset of its first
    /// NUL byte.
    NulError(usize),
}

pub type Result<T> = core::result::Result<T, Error>;

/// The error value for a failed native call.
pub fn error_from_api(errmsg: String, error: i32) -> (r: Error)
    ensures
        r matches Error::FromAPI(m, c) && m@ == errmsg@ && c == error,
{
    Error::FromAPI(errmsg, error)
}

/// Checks the status code returned by a native call.
pub fn check_apicall(error: i32, errmsg: Option<String>) -> (r: Result<()>)
    ensures
        error == 0 <==> r is Ok,
        error != 0 ==> (r matches Err(Error::FromAPI(m, c)) && c == error && m@ == match errmsg {
            Some(s) => s@,
            None => Seq::<char>::empty(),
        }),
{
    if error == 0 {
        Ok(())
    } else {
        let msg = match errmsg {
            Some(s) => s,
            None => String::new(),
        };
        Err(error_from_api(msg, error))
    }
}

} // verus!
