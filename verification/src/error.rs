use vstd::prelude::*;

verus! {

/// The HTTP status codes that the back office answers with.
pub const STATUS_OK: u16 = 200;
pub const STATUS_CREATED: u16 = 201;
pub const STATUS_BAD_REQUEST: u16 = 400;
pub const STATUS_UNAUTHORIZED: u16 = 401;
pub const STATUS_FORBIDDEN: u16 = 403;
pub const STATUS_NOT_FOUND: u16 = 404;
pub const STATUS_UNPROCESSABLE_ENTITY: u16 = 422;
pub const STATUS_INTERNAL_SERVER_ERROR: u16 = 500;

/// A flat list of `(field, message)` pairs, as they appear under `errors`
/// in an error body; as a map, each field occurs once (`distinct_keys`).
pub type FieldMessages = Vec<(String, String)>;

/// The abstract value of a `FieldMessages` list.
pub open spec fn field_messages_view(m: FieldMessages) -> Seq<(Seq<char>, Seq<char>)> {
    m@.map_values(|p: (String, String)| (p.0@, p.1@))
}

/// No key occurs twice in a list of `(key, value)` pairs, as in the map
/// that the list stands for.
pub open spec fn distinct_keys(s: Seq<(Seq<char>, Seq<char>)>) -> bool {
    forall|a: int, b: int| 0 <= a < s.len() && 0 <= b < s.len() && a != b ==> s[a].0 != s[b].0
}

/// An error as the REST layer reports it to a client.
pub enum RestError {
    NotFound(String),
    InternalServer(Option<String>),
    UnprocessableEntity(String),
    Unauthorized,
    Forbidden,
    BadRequest(Option<String>, Option<FieldMessages>),
}

/// The abstract value of a `RestError`.
pub enum RestErrorView {
    NotFound(Seq<char>),
    InternalServer(Option<Seq<char>>),
    UnprocessableEntity(Seq<char>),
    Unauthorized,
    Forbidden,
    BadRequest(Option<Seq<char>>, Option<Seq<(Seq<char>, Seq<char>)>>),
}

pub open spec fn opt_string_view(o: Option<String>) -> Option<Seq<char>> {
    match o {
        Some(s) => Some(s@),
        None => None,
    }
}

pub open spec fn opt_messages_view(o: Option<FieldMessages>) -> Option<Seq<(Seq<char>, Seq<char>)>> {
    match o {
        Some(m) => Some(field_messages_view(m)),
        None => None,
    }
}

impl View for RestError {
    type V = RestErrorView;

    open spec fn view(&self) -> RestErrorView {
        match self {
            RestError::NotFound(d) => RestErrorView::NotFound(d@),
            RestError::InternalServer(d) => RestErrorView::InternalServer(opt_string_view(*d)),
            RestError::UnprocessableEntity(d) => RestErrorView::UnprocessableEntity(d@),
            RestError::Unauthorized => RestErrorView::Unauthorized,
            RestError::Forbidden => RestErrorView::Forbidden,
            RestError::BadRequest(d, e) => RestErrorView::BadRequest(
                opt_string_view(*d),
                opt_messages_view(*e),
            ),
        }
    }
}

/// The HTTP status that answers an error.
pub open spec fn spec_status_code(e: RestErrorView) -> u16 {
    match e {
        RestErrorView::NotFound(_) => STATUS_NOT_FOUND,
        RestErrorView::InternalServer(_) => STATUS_INTERNAL_SERVER_ERROR,
        RestErrorView::UnprocessableEntity(_) => STATUS_UNPROCESSABLE_ENTITY,
        RestErrorView::Unauthorized => STATUS_UNAUTHORIZED,
        RestErrorView::Forbidden => STATUS_FORBIDDEN,
        RestErrorView::BadRequest(_, _) => STATUS_BAD_REQUEST,
    }
}

/// The text that an error displays: the detail of a "not found" or an
/// "unprocessable entity", a fixed title otherwise.
pub open spec fn spec_message(e: RestErrorView) -> Seq<char> {
    match e {
        RestErrorView::NotFound(d) => d,
        RestErrorView::InternalServer(_) => "Internal Server Error"@,
        RestErrorView::UnprocessableEntity(d) => d,
        RestErrorView::Unauthorized => "Unauthorized"@,
        RestErrorView::Forbidden => "Forbidden"@,
        RestErrorView::BadRequest(_, _) => "BadRequest"@,
    }
}

/// The body that answers an error.
pub struct ErrorModel {
    pub status: u16,
    pub message: String,
    pub detail: Option<String>,
    pub errors: Option<FieldMessages>,
}

/// The abstract value of an `ErrorModel`.
pub struct ErrorModelView {
    pub status: u16,
    pub message: Seq<char>,
    pub detail: Option<Seq<char>>,
    pub errors: Option<Seq<(Seq<char>, Seq<char>)>>,
}

impl View for ErrorModel {
    type V = ErrorModelView;

    open spec fn view(&self) -> ErrorModelView {
        ErrorModelView {
            status: self.status,
            message: self.message@,
            detail: opt_string_view(self.detail),
            errors: opt_messages_view(self.errors),
        }
    }
}

/// The body that answers an error: its status, its displayed text, the
/// detail that the error carries and, for a bad request, the field errors.
pub open spec fn spec_model(e: RestErrorView) -> ErrorModelView {
    ErrorModelView {
        status: spec_status_code(e),
        message: spec_message(e),
        detail: match e {
            RestErrorView::NotFound(d) => Some(d),
            RestErrorView::InternalServer(d) => d,
            RestErrorView::UnprocessableEntity(d) => Some(d),
            RestErrorView::BadRequest(d, _) => d,
            _ => None,
        },
        errors: match e {
            RestErrorView::BadRequest(_, m) => m,
            _ => None,
        },
    }
}

pub fn clone_opt_string(o: &Option<String>) -> (r: Option<String>)
    ensures
        r == *o,
{
    match o {
        Some(s) => Some(s.clone()),
        None => None,
    }
}

pub fn clone_messages(m: &FieldMessages) -> (r: FieldMessages)
    ensures
        r@ == m@,
{
    let mut out: FieldMessages = Vec::new();
    let mut i: usize = 0;
    while i < m.len()
        invariant
            i <= m.len(),
            out@ == m@.subrange(0, i as int),
        decreases m.len() - i,
    {
        let k = m[i].0.clone();
        let v = m[i].1.clone();
        out.push((k, v));
        proof {
            assert(m@.subrange(0, i + 1) =~= m@.subrange(0, i as int).push(m@[i as int]));
        }
        i = i + 1;
    }
    proof {
        assert(m@.subrange(0, m@.len() as int) =~= m@);
    }
    out
}

pub fn clone_opt_messages(o: &Option<FieldMessages>) -> (r: Option<FieldMessages>)
    ensures
        r == *o || (r matches Some(a) && o matches Some(b) && a@ == b@),
        opt_messages_view(r) == opt_messages_view(*o),
{
    match o {
        Some(m) => {
            let c = clone_messages(m);
            proof {
                assert(field_messages_view(c) =~= field_messages_view(*m));
            }
            Some(c)
        },
        None => None,
    }
}

impl ErrorModel {
    /// An error body with the given fields.
    pub fn new(
        status: u16,
        message: String,
        detail: Option<String>,
        errors: Option<FieldMessages>,
    ) -> (r: Self)
        ensures
            r.status == status,
            r.message == message,
            r.detail == detail,
            r.errors == errors,
    {
        ErrorModel { status, message, detail, errors }
    }
}

impl RestError {
    /// A copy of the error.
    pub fn duplicate(&self) -> (r: Self)
        ensures
            r@ == self@,
    {
        match self {
            RestError::NotFound(d) => RestError::NotFound(d.clone()),
            RestError::InternalServer(d) => RestError::InternalServer(clone_opt_string(d)),
            RestError::UnprocessableEntity(d) => RestError::UnprocessableEntity(d.clone()),
            RestError::Unauthorized => RestError::Unauthorized,
            RestError::Forbidden => RestError::Forbidden,
            RestError::BadRequest(d, e) => RestError::BadRequest(
                clone_opt_string(d),
                clone_opt_messages(e),
            ),
        }
    }

    /// The HTTP status that answers the error.
    pub fn status_code(&self) -> (r: u16)
        ensures
            r == spec_status_code(self@),
    {
        match self {
            RestError::NotFound(_) => STATUS_NOT_FOUND,
            RestError::InternalServer(_) => STATUS_INTERNAL_SERVER_ERROR,
            RestError::UnprocessableEntity(_) => STATUS_UNPROCESSABLE_ENTITY,
            RestError::Unauthorized => STATUS_UNAUTHORIZED,
            RestError::Forbidden => STATUS_FORBIDDEN,
            RestError::BadRequest(_, _) => STATUS_BAD_REQUEST,
        }
    }

    /// The text that the error displays.
    pub fn message(&self) -> (r: String)
        ensures
            r@ == spec_message(self@),
    {
        match self {
            RestError::NotFound(d) => d.clone(),
            RestError::InternalServer(_) => String::from_str("Internal Server Error"),
            RestError::UnprocessableEntity(d) => d.clone(),
            RestError::Unauthorized => String::from_str("Unauthorized"),
            RestError::Forbidden => String::from_str("Forbidden"),
            RestError::BadRequest(_, _) => String::from_str("BadRequest"),
        }
    }

    /// The body that answers the error.
    pub fn model(&self) -> (r: ErrorModel)
        ensures
            r@ == spec_model(self@),
    {
        let message = self.message();
        let status_code = self.status_code();
        match self {
            RestError::NotFound(detail) => ErrorModel::new(
                status_code,
                message,
                Some(detail.clone()),
                None,
            ),
            RestError::InternalServer(e) => ErrorModel::new(
                status_code,
                message,
                clone_opt_string(e),
                None,
            ),
            RestError::UnprocessableEntity(detail) => ErrorModel::new(
                status_code,
                message,
                Some(detail.clone()),
                None,
            ),
            RestError::Unauthorized => ErrorModel::new(status_code, message, None, None),
            RestError::Forbidden => ErrorModel::new(status_code, message, None, None),
            RestError::BadRequest(detail, errors) => ErrorModel::new(
                status_code,
                message,
                clone_opt_string(detail),
                clone_opt_messages(errors),
            ),
        }
    }
}

} // verus!
