//! API key metadata and status.

use vstd::prelude::*;
use crate::proto;
use vstd::std_specs::convert::FromSpecImpl;

verus! {

/// Metadata the service reports about an API key.
#[derive(Clone, Debug)]
pub struct ApiKeyInfo {
    /// Partially masked key, for display.
    pub redacted_api_key: String,
    /// User who created the key.
    pub user_id: String,
    /// Human-readable name of the key.
    pub name: String,
    /// Time of creation, Unix seconds.
    pub created_at: i64,
    /// Time of the last change, Unix seconds.
    pub modified_at: i64,
    /// User who last changed the key.
    pub modified_by: String,
    /// Team the key belongs to.
    pub team_id: String,
    /// Access control entries attached to the key.
    pub acls: Vec<String>,
    /// Identifier of the key (not the key itself).
    pub api_key_id: String,
    /// The key is blocked.
    pub api_key_blocked: bool,
    /// The owning team is blocked.
    pub team_blocked: bool,
    /// The key is disabled.
    pub disabled: bool,
}

/// What a [`ApiKeyInfo`] holds, as mathematical values.
pub struct ApiKeyInfoView {
    pub redacted_api_key: Seq<char>,
    pub user_id: Seq<char>,
    pub name: Seq<char>,
    pub created_at: i64,
    pub modified_at: i64,
    pub modified_by: Seq<char>,
    pub team_id: Seq<char>,
    pub acls: Seq<Seq<char>>,
    pub api_key_id: Seq<char>,
    pub api_key_blocked: bool,
    pub team_blocked: bool,
    pub disabled: bool,
}

impl View for ApiKeyInfo {
    type V = ApiKeyInfoView;

    open spec fn view(&self) -> ApiKeyInfoView {
        ApiKeyInfoView {
            redacted_api_key: self.redacted_api_key@,
            user_id: self.user_id@,
            name: self.name@,
            created_at: self.created_at,
            modified_at: self.modified_at,
            modified_by: self.modified_by@,
            team_id: self.team_id@,
            acls: self.acls.deep_view(),
            api_key_id: self.api_key_id@,
            api_key_blocked: self.api_key_blocked,
            team_blocked: self.team_blocked,
            disabled: self.disabled,
        }
    }
}

impl DeepView for ApiKeyInfo {
    type V = ApiKeyInfoView;

    open spec fn deep_view(&self) -> ApiKeyInfoView {
        self@
    }
}

impl ApiKeyInfoView {
    /// A key is usable exactly when neither it nor its team is blocked and
    /// it is not disabled.
    pub open spec fn is_active(self) -> bool {
        !self.api_key_blocked && !self.team_blocked && !self.disabled
    }

    /// The state of the key as a word. Where several things are wrong with
    /// the key, a blocked key is named before a blocked team and a blocked
    /// team before a disabled key.
    pub open spec fn status_text(self) -> Seq<char> {
        if self.api_key_blocked {
            "Blocked (Key)"@
        } else if self.team_blocked {
            "Blocked (Team)"@
        } else if self.disabled {
            "Disabled"@
        } else {
            "Active"@
        }
    }

    /// The key metadata that a wire message stands for: the same values, with
    /// the times in Unix seconds and 0 for a time that is not given.
    pub open spec fn from_wire(wire: proto::ApiKeyView) -> ApiKeyInfoView {
        ApiKeyInfoView {
            redacted_api_key: wire.redacted_api_key,
            user_id: wire.user_id,
            name: wire.name,
            created_at: match wire.create_time {
                Some(time) => time.seconds,
                None => 0,
            },
            modified_at: match wire.modify_time {
                Some(time) => time.seconds,
                None => 0,
            },
            modified_by: wire.modified_by,
            team_id: wire.team_id,
            acls: wire.acls,
            api_key_id: wire.api_key_id,
            api_key_blocked: wire.api_key_blocked,
            team_blocked: wire.team_blocked,
            disabled: wire.disabled,
        }
    }
}

impl ApiKeyInfo {
    /// Whether the key can be used.
    pub fn is_active(&self) -> (active: bool)
        ensures
            active == self@.is_active(),
    {
        !self.api_key_blocked && !self.team_blocked && !self.disabled
    }

    /// The state of the key as a word.
    pub fn status_string(&self) -> (status: &'static str)
        ensures
            status@ == self@.status_text(),
    {
        if self.api_key_blocked {
            "Blocked (Key)"
        } else if self.team_blocked {
            "Blocked (Team)"
        } else if self.disabled {
            "Disabled"
        } else {
            "Active"
        }
    }
}

impl From<proto::ApiKey> for ApiKeyInfo {
    /// Reads key metadata from its wire message.
    fn from(proto: proto::ApiKey) -> (info: ApiKeyInfo)
        ensures
            info@ == ApiKeyInfoView::from_wire(proto@),
    {
        ApiKeyInfo {
            redacted_api_key: proto.redacted_api_key,
            user_id: proto.user_id,
            name: proto.name,
            created_at: match proto.create_time {
                Some(time) => time.seconds,
                None => 0,
            },
            modified_at: match proto.modify_time {
                Some(time) => time.seconds,
                None => 0,
            },
            modified_by: proto.modified_by,
            team_id: proto.team_id,
            acls: proto.acls,
            api_key_id: proto.api_key_id,
            api_key_blocked: proto.api_key_blocked,
            team_blocked: proto.team_blocked,
            disabled: proto.disabled,
        }
    }
}

impl FromSpecImpl<proto::ApiKey> for ApiKeyInfo {
    open spec fn obeys_from_spec() -> bool {
        false
    }

    open spec fn from_spec(proto: proto::ApiKey) -> ApiKeyInfo {
        arbitrary()
    }
}

/// A key is active exactly when its state reads "Active".
pub proof fn lemma_active_iff_status_active(info: ApiKeyInfoView)
    ensures
        info.is_active() <==> info.status_text() == "Active"@,
{
    reveal_strlit("Active");
    reveal_strlit("Blocked (Key)");
    reveal_strlit("Blocked (Team)");
    reveal_strlit("Disabled");
    if !info.is_active() {
        assert(info.status_text().len() != "Active"@.len());
    }
}

} // verus!
