//! Task and settings models: the few decisions of those endpoints that are
//! not the store's work — which tasks a filter admits, and how a settings
//! update merges with what is stored.

use vstd::prelude::*;

verus! {

/// The optional filters of a task listing: a task is listed only if it
/// agrees with every filter that is set.
pub struct TaskFilters {
    pub status: Option<String>,
    pub priority: Option<String>,
}

impl TaskFilters {
    /// Whether a task with the given status and priority passes the
    /// filters: an unset filter admits everything, a set one requires
    /// equality.
    pub fn admits(&self, status: &String, priority: &String) -> (r: bool)
        ensures
            r == ((match self.status {
                Some(s) => s@ == status@,
                None => true,
            }) && (match self.priority {
                Some(p) => p@ == priority@,
                None => true,
            })),
    {
        let status_ok = match &self.status {
            Some(s) => *s == *status,
            None => true,
        };
        let priority_ok = match &self.priority {
            Some(p) => *p == *priority,
            None => true,
        };
        status_ok && priority_ok
    }
}

/// A user's stored settings.
pub struct UserSettings {
    pub id: u128,
    pub user_id: u128,
    pub theme: String,
    pub notifications_enabled: bool,
    pub updated_at: u64,
}

/// A settings update; a field left unset keeps its stored value.
pub struct UpdateSettingsRequest {
    pub theme: Option<String>,
    pub notifications_enabled: Option<bool>,
}

/// The settings a user starts with: the light theme, notifications on.
pub fn default_settings(id: u128, user_id: u128, now: u64) -> (r: UserSettings)
    ensures
        r.id == id,
        r.user_id == user_id,
        r.theme@ == "light"@,
        r.notifications_enabled,
        r.updated_at == now,
{
    UserSettings {
        id,
        user_id,
        theme: "light".to_owned(),
        notifications_enabled: true,
        updated_at: now,
    }
}

impl UpdateSettingsRequest {
    /// Merges this update into stored settings: each set field replaces the
    /// stored one, each unset field keeps it, and the update time is
    /// refreshed.
    pub fn apply(&self, current: &UserSettings, now: u64) -> (r: UserSettings)
        ensures
            r.id == current.id,
            r.user_id == current.user_id,
            r.theme@ == (match self.theme {
                Some(t) => t@,
                None => current.theme@,
            }),
            r.notifications_enabled == (match self.notifications_enabled {
                Some(n) => n,
                None => current.notifications_enabled,
            }),
            r.updated_at == now,
    {
        let theme = match &self.theme {
            Some(t) => t.clone(),
            None => current.theme.clone(),
        };
        let notifications_enabled = match self.notifications_enabled {
            Some(n) => n,
            None => current.notifications_enabled,
        };
        UserSettings {
            id: current.id,
            user_id: current.user_id,
            theme,
            notifications_enabled,
            updated_at: now,
        }
    }
}

} // verus!
