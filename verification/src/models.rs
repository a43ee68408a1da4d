use vstd::prelude::*;
use crate::id::{Id, uuid_parse, uuid_text};
use crate::error::{FieldMessages, field_messages_view, distinct_keys, clone_opt_string, clone_messages, opt_string_view};

verus! {

/// Why a request field could not be turned into its domain value; the text
/// is the message that the failure carries.
pub enum ModelError {
    /// A required field was absent.
    Missing(String),
    /// A field held a value that is not an identifier.
    InvalidId,
    /// A field held a value that is not an identifier; the text says which.
    Invalid(String),
}

/// The abstract value of a `ModelError`.
pub enum ModelErrorView {
    Missing(Seq<char>),
    InvalidId,
    Invalid(Seq<char>),
}

impl View for ModelError {
    type V = ModelErrorView;

    open spec fn view(&self) -> ModelErrorView {
        match self {
            ModelError::Missing(m) => ModelErrorView::Missing(m@),
            ModelError::InvalidId => ModelErrorView::InvalidId,
            ModelError::Invalid(m) => ModelErrorView::Invalid(m@),
        }
    }
}

/// The variables of a business unit, message type or schema, by name; as a
/// map, each name occurs once (`distinct_keys`).
pub type Vars = FieldMessages;

/// The text of a required field, or the failure that names it missing.
pub open spec fn spec_required(field: Option<String>, missing: Seq<char>) -> Result<Seq<char>, ModelErrorView> {
    match field {
        Some(s) => Ok(s@),
        None => Err(ModelErrorView::Missing(missing)),
    }
}

pub open spec fn string_result_view(r: Result<String, ModelError>) -> Result<Seq<char>, ModelErrorView> {
    match r {
        Ok(s) => Ok(s@),
        Err(e) => Err(e@),
    }
}

fn required(field: &Option<String>, missing: &str) -> (r: Result<String, ModelError>)
    ensures
        string_result_view(r) == spec_required(*field, missing@),
{
    match field {
        Some(s) => Ok(s.clone()),
        None => Err(ModelError::Missing(String::from_str(missing))),
    }
}

/// The variables given, or none when none were given; each name occurs
/// once where each given name does.
pub open spec fn spec_vars_or_default(vars: Option<Vars>) -> Seq<(Seq<char>, Seq<char>)> {
    match vars {
        Some(v) => field_messages_view(v),
        None => Seq::empty(),
    }
}

fn vars_or_default(vars: &Option<Vars>) -> (r: Vars)
    ensures
        field_messages_view(r) == spec_vars_or_default(*vars),
        (*vars matches Some(v) ==> distinct_keys(field_messages_view(v))) ==> distinct_keys(field_messages_view(r)),
{
    match vars {
        Some(v) => {
            let c = clone_messages(v);
            proof {
                assert(field_messages_view(c) =~= field_messages_view(*v));
            }
            c
        },
        None => Vec::new(),
    }
}

fn clone_opt_vars(vars: &Option<Vars>) -> (r: Option<Vars>)
    ensures
        r is Some == vars is Some,
        r is Some ==> field_messages_view(r->0) == field_messages_view(vars->0),
{
    match vars {
        Some(v) => {
            let c = clone_messages(v);
            proof {
                assert(field_messages_view(c) =~= field_messages_view(*v));
            }
            Some(c)
        },
        None => None,
    }
}

/// The body of a request that creates a business unit.
pub struct CreateBusinessUnitRequest {
    pub code: Option<String>,
    pub name: Option<String>,
    pub vars: Option<Vars>,
}

impl CreateBusinessUnitRequest {
    /// The name of the new business unit, which the request must give.
    pub fn name(&self) -> (r: Result<String, ModelError>)
        ensures
            string_result_view(r) == spec_required(self.name, "missing name"@),
    {
        required(&self.name, "missing name")
    }

    /// The variables of the new business unit; none when none are given.
    pub fn vars(&self) -> (r: Result<Vars, ModelError>)
        ensures
            r matches Ok(v) && field_messages_view(v) == spec_vars_or_default(self.vars)
                && ((self.vars matches Some(g) ==> distinct_keys(field_messages_view(g))) ==> distinct_keys(field_messages_view(v))),
    {
        Ok(vars_or_default(&self.vars))
    }
}

/// The body of a request that changes a business unit; an absent field is
/// left as it is.
pub struct UpdateBusinessUnitRequest {
    pub name: Option<String>,
    pub vars: Option<Vars>,
}

impl UpdateBusinessUnitRequest {
    /// The new name, if the request changes it.
    pub fn name(&self) -> (r: Option<String>)
        ensures
            r == self.name,
    {
        clone_opt_string(&self.name)
    }

    /// The new variables, if the request changes them.
    pub fn vars(&self) -> (r: Option<Vars>)
        ensures
            r is Some == self.vars is Some,
            r is Some ==> field_messages_view(r->0) == field_messages_view(self.vars->0),
    {
        clone_opt_vars(&self.vars)
    }
}

/// A business unit as the api shows it.
pub struct BusinessUnitResource {
    pub id: String,
    pub code: String,
    pub name: String,
    pub vars: Vars,
}

/// A stored business unit.
pub struct BusinessUnit {
    pub id: Id,
    pub code: String,
    pub name: String,
    pub vars: Vars,
}

impl BusinessUnitResource {
    /// How the api shows a stored business unit.
    pub fn from_business_unit(value: &BusinessUnit) -> (r: BusinessUnitResource)
        ensures
            r.id@ == uuid_text(value.id.value),
            r.code == value.code,
            r.name == value.name,
            r.vars@ == value.vars@,
    {
        BusinessUnitResource {
            id: value.id.text(),
            code: value.code.clone(),
            name: value.name.clone(),
            vars: clone_messages(&value.vars),
        }
    }
}

/// The body of a request that creates a message type.
pub struct CreateMessageTypeRequest {
    pub code: Option<String>,
    pub name: Option<String>,
    pub vars: Option<Vars>,
}

impl CreateMessageTypeRequest {
    /// The name of the new message type, which the request must give.
    pub fn name(&self) -> (r: Result<String, ModelError>)
        ensures
            string_result_view(r) == spec_required(self.name, "Missing name"@),
    {
        required(&self.name, "Missing name")
    }

    /// The variables of the new message type; none when none are given.
    pub fn vars(&self) -> (r: Result<Vars, ModelError>)
        ensures
            r matches Ok(v) && field_messages_view(v) == spec_vars_or_default(self.vars)
                && ((self.vars matches Some(g) ==> distinct_keys(field_messages_view(g))) ==> distinct_keys(field_messages_view(v))),
    {
        Ok(vars_or_default(&self.vars))
    }
}

/// A stored message type.
pub struct MessageType {
    pub id: Id,
    pub code: String,
    pub name: String,
    pub vars: Vars,
}

/// A message type as the api shows it.
pub struct MessageTypeResource {
    pub id: String,
    pub code: String,
    pub name: String,
    pub vars: Vars,
}

impl MessageTypeResource {
    /// How the api shows a stored message type.
    pub fn from_message_type(value: &MessageType) -> (r: MessageTypeResource)
        ensures
            r.id@ == uuid_text(value.id.value),
            r.code == value.code,
            r.name == value.name,
            r.vars@ == value.vars@,
    {
        MessageTypeResource {
            id: value.id.text(),
            code: value.code.clone(),
            name: value.name.clone(),
            vars: clone_messages(&value.vars),
        }
    }
}

/// The query of a listing of message types; it has no criteria.
pub struct MessageTypeRestQuery {}

/// The body of a request that changes a message type; an absent field is
/// left as it is.
pub struct UpdateMessageTypeRequest {
    pub name: Option<String>,
    pub vars: Option<Vars>,
}

impl UpdateMessageTypeRequest {
    /// The new variables, if the request changes them.
    pub fn vars(&self) -> (r: Result<Option<Vars>, ModelError>)
        ensures
            r is Ok,
            r->Ok_0 is Some == self.vars is Some,
            r->Ok_0 is Some ==> field_messages_view(r->Ok_0->0) == field_messages_view(self.vars->0),
    {
        Ok(clone_opt_vars(&self.vars))
    }

    /// The new name, if the request changes it.
    pub fn name(&self) -> (r: Result<Option<String>, ModelError>)
        ensures
            r matches Ok(n) && n == self.name,
    {
        Ok(clone_opt_string(&self.name))
    }
}

/// A snippet of a template's text.
pub struct TemplateSnippet {
    pub text: String,
}

pub open spec fn snippet_view(s: Option<TemplateSnippet>) -> Option<Seq<char>> {
    match s {
        Some(t) => Some(t.text@),
        None => None,
    }
}

fn snippet_of(field: &Option<String>) -> (r: Option<TemplateSnippet>)
    ensures
        snippet_view(r) == opt_string_view(*field),
{
    match field {
        Some(s) => Some(TemplateSnippet { text: s.clone() }),
        None => None,
    }
}

/// An optional change of an optional snippet: `None` leaves it as it is,
/// `Some(None)` removes it, `Some(Some(s))` sets it.
pub open spec fn snippet_change_view(s: Option<Option<TemplateSnippet>>) -> Option<Option<Seq<char>>> {
    match s {
        Some(inner) => Some(snippet_view(inner)),
        None => None,
    }
}

pub open spec fn text_change_view(s: Option<Option<String>>) -> Option<Option<Seq<char>>> {
    match s {
        Some(inner) => Some(opt_string_view(inner)),
        None => None,
    }
}

fn snippet_change_of(field: &Option<Option<String>>) -> (r: Option<Option<TemplateSnippet>>)
    ensures
        snippet_change_view(r) == text_change_view(*field),
{
    match field {
        Some(inner) => Some(snippet_of(inner)),
        None => None,
    }
}

/// The body of a request that creates a template.
pub struct CreateTemplateRequest {
    pub name: Option<String>,
    pub subject: Option<String>,
    pub html: Option<String>,
    pub text: Option<String>,
}

impl CreateTemplateRequest {
    /// The name of the new template, which the request must give.
    pub fn name(&self) -> (r: Result<String, ModelError>)
        ensures
            string_result_view(r) == spec_required(self.name, "missing name"@),
    {
        required(&self.name, "missing name")
    }

    /// The subject of the new template, if it has one.
    pub fn subject(&self) -> (r: Result<Option<TemplateSnippet>, ModelError>)
        ensures
            r matches Ok(c) && snippet_view(c) == opt_string_view(self.subject),
    {
        Ok(snippet_of(&self.subject))
    }

    /// The html body of the new template, if it has one.
    pub fn html(&self) -> (r: Result<Option<TemplateSnippet>, ModelError>)
        ensures
            r matches Ok(c) && snippet_view(c) == opt_string_view(self.html),
    {
        Ok(snippet_of(&self.html))
    }

    /// The text body of the new template, if it has one.
    pub fn text(&self) -> (r: Result<Option<TemplateSnippet>, ModelError>)
        ensures
            r matches Ok(c) && snippet_view(c) == opt_string_view(self.text),
    {
        Ok(snippet_of(&self.text))
    }
}

/// The body of a request that changes a template. An absent field is left
/// as it is; a snippet given as null is removed.
pub struct UpdateTemplateRequest {
    pub name: Option<String>,
    pub subject: Option<Option<String>>,
    pub html: Option<Option<String>>,
    pub text: Option<Option<String>>,
}

impl UpdateTemplateRequest {
    /// The new name, if the request changes it.
    pub fn name(&self) -> (r: Result<Option<String>, ModelError>)
        ensures
            r matches Ok(n) && n == self.name,
    {
        Ok(clone_opt_string(&self.name))
    }

    /// The change of the subject, if any.
    pub fn subject(&self) -> (r: Result<Option<Option<TemplateSnippet>>, ModelError>)
        ensures
            r matches Ok(c) && snippet_change_view(c) == text_change_view(self.subject),
    {
        Ok(snippet_change_of(&self.subject))
    }

    /// The change of the html body, if any.
    pub fn html(&self) -> (r: Result<Option<Option<TemplateSnippet>>, ModelError>)
        ensures
            r matches Ok(c) && snippet_change_view(c) == text_change_view(self.html),
    {
        Ok(snippet_change_of(&self.html))
    }

    /// The change of the text body, if any.
    pub fn text(&self) -> (r: Result<Option<Option<TemplateSnippet>>, ModelError>)
        ensures
            r matches Ok(c) && snippet_change_view(c) == text_change_view(self.text),
    {
        Ok(snippet_change_of(&self.text))
    }
}

/// A stored template.
pub struct Template {
    pub id: Id,
    pub name: String,
    pub subject: Option<TemplateSnippet>,
    pub html: Option<TemplateSnippet>,
    pub text: Option<TemplateSnippet>,
}

/// A template as the api shows it.
pub struct TemplateResource {
    pub id: String,
    pub name: String,
    pub subject: Option<String>,
    pub html: Option<String>,
    pub text: Option<String>,
}

fn text_of(s: &Option<TemplateSnippet>) -> (r: Option<String>)
    ensures
        opt_string_view(r) == snippet_view(*s),
{
    match s {
        Some(t) => Some(t.text.clone()),
        None => None,
    }
}

impl TemplateResource {
    /// How the api shows a stored template.
    pub fn from_template(template: &Template) -> (r: TemplateResource)
        ensures
            r.id@ == uuid_text(template.id.value),
            r.name == template.name,
            opt_string_view(r.subject) == snippet_view(template.subject),
            opt_string_view(r.html) == snippet_view(template.html),
            opt_string_view(r.text) == snippet_view(template.text),
    {
        TemplateResource {
            id: template.id.text(),
            name: template.name.clone(),
            subject: text_of(&template.subject),
            html: text_of(&template.html),
            text: text_of(&template.text),
        }
    }
}

/// The body of a request that assigns a template; it has no fields yet.
pub struct CreateTemplateAssignmentRequest {}

/// The body of a request that changes a template assignment; it has no
/// fields yet.
pub struct UpdateTemplateAssignmentRequest {}

/// The query of a listing of channels, by the business unit that owns them.
pub struct ChannelRestQuery {
    pub business_unit_id: Option<String>,
}

/// The business unit that a query names: none, the identifier that its text
/// spells, or a failure when the text spells none.
pub open spec fn spec_query_business_unit(q: Option<String>) -> Result<Option<u128>, ModelErrorView> {
    match q {
        None => Ok(None),
        Some(s) => match uuid_parse(s@) {
            Some(v) => Ok(Some(v)),
            None => Err(ModelErrorView::InvalidId),
        },
    }
}

impl ChannelRestQuery {
    /// The business unit whose channels are asked for, if any.
    pub fn business_unit_id(&self) -> (r: Result<Option<Id>, ModelError>)
        ensures
            match r {
                Ok(Some(id)) => spec_query_business_unit(self.business_unit_id) == Ok::<Option<u128>, ModelErrorView>(Some(id.value)),
                Ok(None) => spec_query_business_unit(self.business_unit_id) == Ok::<Option<u128>, ModelErrorView>(None),
                Err(e) => spec_query_business_unit(self.business_unit_id) == Err::<Option<u128>, ModelErrorView>(e@),
            },
    {
        match &self.business_unit_id {
            None => Ok(None),
            Some(s) => match Id::parse(s.as_str()) {
                Some(id) => Ok(Some(id)),
                None => Err(ModelError::InvalidId),
            },
        }
    }
}

/// The identifier in a request's path.
pub struct SingleIdPath {
    pub id: String,
}

impl SingleIdPath {
    /// The identifier that the path spells, if it spells one.
    pub fn try_into_id(self) -> (r: Result<Id, ModelError>)
        ensures
            match r {
                Ok(id) => uuid_parse(self.id@) == Some(id.value),
                Err(e) => uuid_parse(self.id@) is None && e@ == ModelErrorView::InvalidId,
            },
    {
        match Id::parse(self.id.as_str()) {
            Some(id) => Ok(id),
            None => Err(ModelError::InvalidId),
        }
    }
}

/// The identifier that a required field spells: the failure `missing`
/// where the field is absent, the failure `invalid` where its text spells
/// no identifier.
pub open spec fn spec_required_id(field: Option<String>, missing: Seq<char>, invalid: Seq<char>) -> Result<u128, ModelErrorView> {
    match field {
        None => Err(ModelErrorView::Missing(missing)),
        Some(s) => match uuid_parse(s@) {
            Some(v) => Ok(v),
            None => Err(ModelErrorView::Invalid(invalid)),
        },
    }
}

pub open spec fn id_result_view(r: Result<Id, ModelError>) -> Result<u128, ModelErrorView> {
    match r {
        Ok(id) => Ok(id.value),
        Err(e) => Err(e@),
    }
}

fn required_id(field: &Option<String>, missing: &str, invalid: &str) -> (r: Result<Id, ModelError>)
    ensures
        id_result_view(r) == spec_required_id(*field, missing@, invalid@),
{
    match field {
        None => Err(ModelError::Missing(String::from_str(missing))),
        Some(s) => match Id::parse(s.as_str()) {
            Some(id) => Ok(id),
            None => Err(ModelError::Invalid(String::from_str(invalid))),
        },
    }
}

/// The body of a request that creates a channel of a business unit. The
/// dispatch type, properties and priority are checked where the channel is
/// created.
pub struct CreateChannelRequest {
    pub business_id: Option<String>,
    pub connection_id: Option<String>,
    pub dispatch_type: Option<String>,
    pub priority: Option<i32>,
}

impl CreateChannelRequest {
    /// The business unit of the new channel, which the request must name.
    pub fn into_business_id(&self) -> (r: Result<Id, ModelError>)
        ensures
            id_result_view(r) == spec_required_id(self.business_id, "Missing business id"@, "Invalid Id"@),
    {
        required_id(&self.business_id, "Missing business id", "Invalid Id")
    }

    /// The connection of the new channel, which the request must name.
    pub fn into_connection_id(&self) -> (r: Result<Id, ModelError>)
        ensures
            id_result_view(r) == spec_required_id(self.connection_id, "Missing connection id"@, "Invalid Id"@),
    {
        required_id(&self.connection_id, "Missing connection id", "Invalid Id")
    }
}

/// The body of a request that changes a channel; an absent field is left as
/// it is.
pub struct UpdateChannelRequest {
    pub priority: Option<i32>,
    pub enabled: Option<bool>,
}

impl UpdateChannelRequest {
    /// Whether the channel is to be enabled, if the request says.
    pub fn into_enabled(&self) -> (r: Option<bool>)
        ensures
            r == self.enabled,
    {
        self.enabled
    }
}

/// The body of a request that creates a connection. The plugin and the
/// properties are checked where the connection is created.
pub struct CreateConnectionRequest {
    pub name: Option<String>,
    pub plugin_id: Option<String>,
}

impl CreateConnectionRequest {
    /// The name of the new connection, which the request must give.
    pub fn name(&self) -> (r: Result<String, ModelError>)
        ensures
            string_result_view(r) == spec_required(self.name, "Missing name"@),
    {
        required(&self.name, "Missing name")
    }
}

/// The body of a request that changes a connection; an absent field is left
/// as it is.
pub struct UpdateConnectionRequest {
    pub name: Option<String>,
    pub enabled: Option<bool>,
}

impl UpdateConnectionRequest {
    /// The new name, if the request changes it.
    pub fn name(&self) -> (r: Option<String>)
        ensures
            r == self.name,
    {
        clone_opt_string(&self.name)
    }

    /// Whether the connection is to be enabled, if the request says.
    pub fn enabled(&self) -> (r: Option<bool>)
        ensures
            r == self.enabled,
    {
        self.enabled
    }
}

/// The body of a request that creates a route from a channel to a schema.
pub struct CreateRouteRequest {
    pub channel_id: Option<String>,
    pub schema_id: Option<String>,
}

impl CreateRouteRequest {
    /// The channel of the new route, which the request must name.
    pub fn channel_id(&self) -> (r: Result<Id, ModelError>)
        ensures
            id_result_view(r) == spec_required_id(self.channel_id, "missing channel id"@, "invalid channel id"@),
    {
        required_id(&self.channel_id, "missing channel id", "invalid channel id")
    }

    /// The schema of the new route, which the request must name.
    pub fn schema_id(&self) -> (r: Result<Id, ModelError>)
        ensures
            id_result_view(r) == spec_required_id(self.schema_id, "missing schema id"@, "invalid schema id"@),
    {
        required_id(&self.schema_id, "missing schema id", "invalid schema id")
    }
}

/// The body of a request that creates a schema of a message type. The
/// schema itself is checked where it is created.
pub struct CreateSchemaRequest {
    pub message_type_id: Option<String>,
    pub vars: Option<Vars>,
}

impl CreateSchemaRequest {
    /// The message type of the new schema, which the request must name.
    pub fn message_type_id(&self) -> (r: Result<Id, ModelError>)
        ensures
            id_result_view(r) == spec_required_id(self.message_type_id, "missing message type id"@, "invalid message type id"@),
    {
        required_id(&self.message_type_id, "missing message type id", "invalid message type id")
    }

    /// The variables of the new schema; none when none are given.
    pub fn vars(&self) -> (r: Result<Vars, ModelError>)
        ensures
            r matches Ok(v) && field_messages_view(v) == spec_vars_or_default(self.vars)
                && ((self.vars matches Some(g) ==> distinct_keys(field_messages_view(g))) ==> distinct_keys(field_messages_view(v))),
    {
        Ok(vars_or_default(&self.vars))
    }
}

/// The body of a request that changes a schema; an absent field is left as
/// it is.
pub struct UpdateSchemaRequest {
    pub enabled: Option<bool>,
    pub vars: Option<Vars>,
}

impl UpdateSchemaRequest {
    /// Whether the schema is to be enabled, if the request says.
    pub fn enabled(&self) -> (r: Result<Option<bool>, ModelError>)
        ensures
            r == Ok::<Option<bool>, ModelError>(self.enabled),
    {
        Ok(self.enabled)
    }

    /// The new variables, if the request changes them.
    pub fn vars(&self) -> (r: Option<Vars>)
        ensures
            r is Some == self.vars is Some,
            r is Some ==> field_messages_view(r->0) == field_messages_view(self.vars->0),
    {
        clone_opt_vars(&self.vars)
    }
}

/// The mailbox of an e-mail recipient.
pub struct EmailData {
    pub mailbox: Option<String>,
}

/// The phone number of an sms recipient.
pub struct SmsData {
    pub phone_number: Option<String>,
}

/// A push recipient; it has no data.
pub struct PushData;

} // verus!
