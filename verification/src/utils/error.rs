use vstd::prelude::*;

verus! {

/// The value of a result, if it is one; an error is left behind.
pub open spec fn ok_of<T, E>(r: Result<T, E>) -> Option<T> {
    match r {
        Ok(t) => Some(t),
        Err(_) => None,
    }
}

/// Turns a result into its value, giving up the error at the chosen severity
/// (reporting it is the caller's business).
pub trait ResultExt<T>: Sized {
    fn log_error(self) -> Option<T>;

    fn log_warn(self) -> Option<T>;

    fn log_info(self) -> Option<T>;

    fn log_debug(self) -> Option<T>;
}

impl<T, E> ResultExt<T> for Result<T, E> {
    fn log_error(self) -> (r: Option<T>)
        ensures
            r == ok_of(self),
    {
        match self {
            Ok(t) => Some(t),
            Err(_) => None,
        }
    }

    fn log_warn(self) -> (r: Option<T>)
        ensures
            r == ok_of(self),
    {
        match self {
            Ok(t) => Some(t),
            Err(_) => None,
        }
    }

    fn log_info(self) -> (r: Option<T>)
        ensures
            r == ok_of(self),
    {
        match self {
            Ok(t) => Some(t),
            Err(_) => None,
        }
    }

    fn log_debug(self) -> (r: Option<T>)
        ensures
            r == ok_of(self),
    {
        match self {
            Ok(t) => Some(t),
            Err(_) => None,
        }
    }
}

} // verus!
