use vstd::prelude::*;
use vstd::string::*;

verus! {

/// The envelope of every JSON reply: a business code, a message, and the data
/// when there is any.
pub struct ApiResponse<T> {
    pub code: u16,
    pub msg: String,
    pub data: Option<T>,
}

impl<T> ApiResponse<T> {
    /// A success envelope around `data`: code 0, message `success`.
    pub fn success(data: T) -> (r: Self)
        ensures
            r.code == 0,
            r.msg@ == "success"@,
            r.data == Some(data),
    {
        ApiResponse { code: 0, msg: String::from_str("success"), data: Some(data) }
    }

    /// A failure envelope with a business code and a message, and no data.
    pub fn error(code: u16, msg: String) -> (r: ApiResponse<()>)
        ensures
            r.code == code,
            r.msg == msg,
            r.data is None,
    {
        ApiResponse { code, msg, data: None }
    }
}

} // verus!
