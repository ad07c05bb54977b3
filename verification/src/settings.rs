use vstd::prelude::*;
use crate::model::UserSettingsRequest;

verus! {

/// The settings a fresh user starts with: everything off.
pub fn default_settings() -> (r: UserSettingsRequest)
    ensures
        r == spec_default_settings(),
{
    UserSettingsRequest {
        search_history: false,
        autosuggest: false,
        jira_api: false,
        confluence_api: false,
        linear_api: false,
        new_tabs: false,
        metadata: false,
    }
}

pub open spec fn spec_default_settings() -> UserSettingsRequest {
    UserSettingsRequest {
        search_history: false,
        autosuggest: false,
        jira_api: false,
        confluence_api: false,
        linear_api: false,
        new_tabs: false,
        metadata: false,
    }
}

/// A settings blob with the premium features switched off and the
/// non-premium flags untouched.
pub open spec fn spec_disable_premium(b: UserSettingsRequest) -> UserSettingsRequest {
    UserSettingsRequest {
        autosuggest: false,
        jira_api: false,
        confluence_api: false,
        linear_api: false,
        metadata: false,
        ..b
    }
}

/// Force-disable the premium features in a settings blob. This is the one
/// place billing state leaks into a non-billing record: it runs as a side
/// effect of reconciliation when a subscription has lapsed, never as part of
/// settings CRUD itself.
pub fn disable_premium_features(settings_blob: &mut UserSettingsRequest)
    ensures
        *final(settings_blob) == spec_disable_premium(*old(settings_blob)),
{
    settings_blob.autosuggest = false;
    settings_blob.jira_api = false;
    settings_blob.confluence_api = false;
    settings_blob.linear_api = false;
    settings_blob.metadata = false;
}

} // verus!
