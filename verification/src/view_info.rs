//! The top-level view capability: it describes the application's
//! permission/role model to the host and mints new sessions scoped to a
//! caller's permissions.

use vstd::prelude::*;
use vstd::string::StringExecFns;
use crate::error::{CallError, CallErrorView};
use crate::session::WebSession;

verus! {

/// The capability type id of the web session interface in the host's
/// schema. A session request must name exactly this type.
pub const WEB_SESSION_TYPE_ID: u64 = 0xa50711a14d35a8ce;

/// One named permission the application defines.
#[derive(Debug, Clone, PartialEq, Eq)]
pub struct PermissionDef {
    pub name: String,
    pub title: String,
}

/// One shareable role: a title, a verb phrase, and for each defined
/// permission whether the role grants it.
#[derive(Debug, Clone, PartialEq, Eq)]
pub struct RoleDef {
    pub title: String,
    pub verb_phrase: String,
    pub permissions: Vec<bool>,
}

/// The application's static permission/role descriptor.
#[derive(Debug, Clone, PartialEq, Eq)]
pub struct ViewInfo {
    pub permissions: Vec<PermissionDef>,
    pub roles: Vec<RoleDef>,
}

/// Mathematical image of a [`PermissionDef`].
pub struct PermissionDefView {
    pub name: Seq<char>,
    pub title: Seq<char>,
}

/// Mathematical image of a [`RoleDef`].
pub struct RoleDefView {
    pub title: Seq<char>,
    pub verb_phrase: Seq<char>,
    pub permissions: Seq<bool>,
}

/// Mathematical image of a [`ViewInfo`].
pub struct ViewInfoView {
    pub permissions: Seq<PermissionDefView>,
    pub roles: Seq<RoleDefView>,
}

impl View for PermissionDef {
    type V = PermissionDefView;

    open spec fn view(&self) -> PermissionDefView {
        PermissionDefView { name: self.name@, title: self.title@ }
    }
}

impl View for RoleDef {
    type V = RoleDefView;

    open spec fn view(&self) -> RoleDefView {
        RoleDefView {
            title: self.title@,
            verb_phrase: self.verb_phrase@,
            permissions: self.permissions@,
        }
    }
}

impl View for ViewInfo {
    type V = ViewInfoView;

    open spec fn view(&self) -> ViewInfoView {
        ViewInfoView {
            permissions: self.permissions@.map_values(|p: PermissionDef| p@),
            roles: self.roles@.map_values(|r: RoleDef| r@),
        }
    }
}

/// The one descriptor the application ever publishes: a single "write"
/// permission, an "editor" role that grants it and a "viewer" role that
/// does not. Recomputed identically on every call; independent of the
/// caller.
pub open spec fn view_info_model() -> ViewInfoView {
    ViewInfoView {
        permissions: seq![PermissionDefView { name: "write"@, title: "write"@ }],
        roles: seq![
            RoleDefView { title: "editor"@, verb_phrase: "can edit"@, permissions: seq![true] },
            RoleDefView { title: "viewer"@, verb_phrase: "can view"@, permissions: seq![false] },
        ],
    }
}

/// The top-level view capability. It holds no state of its own: the
/// descriptor is a constant of the application, and each minted session
/// carries its own permission bit.
pub struct UiView {}

impl UiView {
    /// Creates the view capability.
    pub fn new() -> UiView {
        UiView {}
    }

    /// Publishes the application's permission/role descriptor, the same one
    /// on every call.
    pub fn get_view_info(&self) -> (r: ViewInfo)
        ensures
            r@ == view_info_model(),
    {
        let mut permissions: Vec<PermissionDef> = Vec::new();
        permissions.push(
            PermissionDef { name: String::from_str("write"), title: String::from_str("write") },
        );
        let mut editor_permissions: Vec<bool> = Vec::new();
        editor_permissions.push(true);
        let mut viewer_permissions: Vec<bool> = Vec::new();
        viewer_permissions.push(false);
        let mut roles: Vec<RoleDef> = Vec::new();
        roles.push(
            RoleDef {
                title: String::from_str("editor"),
                verb_phrase: String::from_str("can edit"),
                permissions: editor_permissions,
            },
        );
        roles.push(
            RoleDef {
                title: String::from_str("viewer"),
                verb_phrase: String::from_str("can view"),
                permissions: viewer_permissions,
            },
        );
        let r = ViewInfo { permissions, roles };
        proof {
            assert(r@.permissions =~= view_info_model().permissions);
            assert(r@.roles[0].permissions =~= seq![true]);
            assert(r@.roles[1].permissions =~= seq![false]);
            assert(r@.roles =~= view_info_model().roles);
        }
        r
    }

    /// Mints a session for the given caller. A request for any session type
    /// other than the web session fails the call and constructs nothing;
    /// otherwise the new session's write bit is the caller's permission
    /// bit 0.
    pub fn new_session(&self, session_type: u64, permissions: &Vec<bool>) -> (r: Result<
        WebSession,
        CallError,
    >)
        ensures
            session_type == WEB_SESSION_TYPE_ID ==> (r matches Ok(s) && s.can_write() == (
            permissions@.len() > 0 && permissions@[0])),
            session_type != WEB_SESSION_TYPE_ID ==> (r matches Err(e) && e@
                == CallErrorView::UnsupportedSessionType),
    {
        if session_type != WEB_SESSION_TYPE_ID {
            return Err(CallError::UnsupportedSessionType);
        }
        Ok(WebSession::new(permissions))
    }
}

} // verus!
