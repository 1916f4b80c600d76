//! Messages of the API key service.

use vstd::prelude::*;

verus! {

/// Metadata of an API key.
#[derive(Clone, Debug)]
pub struct ApiKey {
    /// Partially masked key.
    pub redacted_api_key: String,
    /// User who created the key.
    pub user_id: String,
    /// Name of the key.
    pub name: String,
    /// Time of creation.
    pub create_time: Option<prost_types::Timestamp>,
    /// Time of the last change.
    pub modify_time: Option<prost_types::Timestamp>,
    /// User who last changed the key.
    pub modified_by: String,
    /// Team the key belongs to.
    pub team_id: String,
    /// Access control entries.
    pub acls: Vec<String>,
    /// Identifier of the key.
    pub api_key_id: String,
    /// The key is blocked.
    pub api_key_blocked: bool,
    /// The team is blocked.
    pub team_blocked: bool,
    /// The key is disabled.
    pub disabled: bool,
}

/// What a [`ApiKey`] holds, as mathematical values.
pub struct ApiKeyView {
    pub redacted_api_key: Seq<char>,
    pub user_id: Seq<char>,
    pub name: Seq<char>,
    pub create_time: Option<prost_types::Timestamp>,
    pub modify_time: Option<prost_types::Timestamp>,
    pub modified_by: Seq<char>,
    pub team_id: Seq<char>,
    pub acls: Seq<Seq<char>>,
    pub api_key_id: Seq<char>,
    pub api_key_blocked: bool,
    pub team_blocked: bool,
    pub disabled: bool,
}

impl View for ApiKey {
    type V = ApiKeyView;

    open spec fn view(&self) -> ApiKeyView {
        ApiKeyView {
            redacted_api_key: self.redacted_api_key@,
            user_id: self.user_id@,
            name: self.name@,
            create_time: self.create_time,
            modify_time: self.modify_time,
            modified_by: self.modified_by@,
            team_id: self.team_id@,
            acls: self.acls.deep_view(),
            api_key_id: self.api_key_id@,
            api_key_blocked: self.api_key_blocked,
            team_blocked: self.team_blocked,
            disabled: self.disabled,
        }
    }
}

impl DeepView for ApiKey {
    type V = ApiKeyView;

    open spec fn deep_view(&self) -> ApiKeyView {
        self@
    }
}

} // verus!
