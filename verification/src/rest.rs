//! The REST collaborator's boundary: the response envelope and session
//! types the streaming core receives from it, and the small decisions that
//! can be made without the network. The HTTP client itself stays outside
//! this library.
use vstd::prelude::*;

verus! {

/// The standing details a successful API response carries.
#[derive(Debug)]
pub struct Response<T> {
    pub data: T,
    pub context: String,
    pub pagination: Option<Pagination>,
}

/// Paging of a listing endpoint.
#[derive(Debug, Clone)]
pub struct Pagination {
    pub per_page: usize,
    pub page_offset: usize,
    pub item_offset: usize,
    pub total_items: usize,
    pub total_pages: usize,
    pub current_item_count: usize,
    pub previous_link: Option<String>,
    pub next_link: Option<String>,
    pub paging_link_template: Option<String>,
}

/// A listing body.
#[derive(Debug)]
pub struct Items<T> {
    pub items: Vec<T>,
}

/// One page of a listing with its paging.
#[derive(Debug)]
pub struct Paginated<T> {
    pub items: Vec<T>,
    pub pagination: Pagination,
}

/// A structured API failure.
#[derive(Debug, Clone)]
pub struct ApiError {
    pub code: Option<String>,
    pub message: String,
    pub errors: Option<Vec<InnerApiError>>,
}

impl ApiError {
    /// The text a report of this error carries.
    pub fn describe(&self) -> (r: String)
        ensures
            r@ == match self.code {
                Some(c) => "Error "@ + c@ + ": "@ + self.message@,
                None => "Error: "@ + self.message@,
            },
    {
        let mut s = String::from_str("Error");
        match &self.code {
            Some(c) => {
                s.append(" ");
                s.append(c.as_str());
                s.append(": ");
            },
            None => {
                s.append(": ");
            },
        }
        s.append(self.message.as_str());
        proof {
            reveal_strlit("Error");
            reveal_strlit("Error ");
            reveal_strlit("Error: ");
            reveal_strlit(" ");
            reveal_strlit(": ");
            match &self.code {
                Some(c) => {
                    assert(s@ =~= "Error "@ + c@ + ": "@ + self.message@);
                },
                None => {
                    assert(s@ =~= "Error: "@ + self.message@);
                },
            }
        }
        s
    }
}

/// One entry of a structured API failure.
#[derive(Debug, Clone)]
pub struct InnerApiError {
    pub code: Option<String>,
    pub message: String,
}

/// An API response: a success envelope or a structured failure.
#[derive(Debug)]
pub enum TastyApiResponse<T> {
    Success(Response<T>),
    Error { error: ApiError },
}

/// Turns a decoded response into a result: the success envelope as it
/// stands, the failure as the error.
pub fn classify_response<T>(r: TastyApiResponse<T>) -> (out: Result<Response<T>, ApiError>)
    ensures
        match r {
            TastyApiResponse::Success(s) => out matches Ok(o) && o == s,
            TastyApiResponse::Error { error } => out matches Err(e) && e == error,
        },
{
    match r {
        TastyApiResponse::Success(s) => Ok(s),
        TastyApiResponse::Error { error } => Err(error),
    }
}

/// The REST base endpoint: the certification host for a demo session, the
/// production host otherwise.
pub fn api_base_url(demo: bool) -> (r: &'static str)
    ensures
        demo ==> r@ == "https://api.cert.tastyworks.com"@,
        !demo ==> r@ == "https://api.tastyworks.com"@,
{
    if demo {
        "https://api.cert.tastyworks.com"
    } else {
        "https://api.tastyworks.com"
    }
}

/// What a login sends.
#[derive(Debug, Clone)]
pub struct LoginCredentials<'a> {
    pub login: &'a str,
    pub password: &'a str,
    pub remember_me: bool,
}

/// The user a login reports.
#[derive(Debug, Clone)]
pub struct LoginResponseUser {
    pub email: String,
    pub username: String,
    pub external_id: String,
}

/// What a successful login reports.
#[derive(Debug, Clone)]
pub struct LoginResponse {
    pub user: LoginResponseUser,
    pub session_token: String,
    pub remember_token: Option<String>,
}

} // verus!
