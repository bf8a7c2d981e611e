//! Account state, permissions and profile visibility.
use vstd::prelude::*;

use crate::backend::{NonEmptyString, UuidBase64Url};
use crate::common::AccountId;
use crate::profile::ProfileAge;
use crate::sync_version::AccountSyncVersion;
use crate::EnumParsingError;

verus! {

/// Account state as the client sees it.
#[derive(Debug, Clone, Copy, PartialEq, Eq, Structural)]
pub enum AccountState {
    InitialSetup,
    Normal,
    Banned,
    PendingDeletion,
}

/// Flags that make up the account state.
#[derive(Debug, Clone, Copy, PartialEq, Eq, Structural)]
pub struct AccountStateContainer {
    pub initial_setup_completed: bool,
    pub banned: bool,
    pub pending_deletion: bool,
}

impl Default for AccountStateContainer {
    fn default() -> (r: Self)
        ensures
            r == (Self { initial_setup_completed: false, banned: false, pending_deletion: false }),
    {
        Self { initial_setup_completed: false, banned: false, pending_deletion: false }
    }
}

impl AccountStateContainer {
    /// Pending deletion wins over banned, banned over an unfinished
    /// initial setup; otherwise the account is normal.
    pub open spec fn spec_account_state(self) -> AccountState {
        if self.pending_deletion {
            AccountState::PendingDeletion
        } else if self.banned {
            AccountState::Banned
        } else if !self.initial_setup_completed {
            AccountState::InitialSetup
        } else {
            AccountState::Normal
        }
    }

    pub fn account_state(&self) -> (r: AccountState)
        ensures
            r == self.spec_account_state(),
    {
        if self.pending_deletion {
            AccountState::PendingDeletion
        } else if self.banned {
            AccountState::Banned
        } else if !self.initial_setup_completed {
            AccountState::InitialSetup
        } else {
            AccountState::Normal
        }
    }

    pub fn complete_initial_setup(&mut self)
        ensures
            *final(self) == (Self { initial_setup_completed: true, ..*old(self) }),
    {
        self.initial_setup_completed = true;
    }

    pub fn set_pending_deletion(&mut self, value: bool)
        ensures
            *final(self) == (Self { pending_deletion: value, ..*old(self) }),
    {
        self.pending_deletion = value;
    }

    pub fn set_banned(&mut self, value: bool)
        ensures
            *final(self) == (Self { banned: value, ..*old(self) }),
    {
        self.banned = value;
    }
}

/// Setting the pending deletion flag makes the account pending deletion,
/// whatever the other flags are; clearing it leaves the state that the
/// other flags give.
pub proof fn lemma_pending_deletion_wins(c: AccountStateContainer, value: bool)
    ensures
        value ==> (AccountStateContainer { pending_deletion: value, ..c }).spec_account_state()
            == AccountState::PendingDeletion,
        !value ==> (AccountStateContainer { pending_deletion: value, ..c }).spec_account_state()
            == (AccountStateContainer { pending_deletion: false, ..c }).spec_account_state(),
{
}

/// Admin permissions of an account.
#[derive(Debug, Clone, Copy, PartialEq, Eq, Structural)]
pub struct Permissions {
    pub admin_change_email_address: bool,
    pub admin_edit_login: bool,
    pub admin_edit_permissions: bool,
    pub admin_edit_profile_name: bool,
    pub admin_edit_max_public_key_count: bool,
    pub admin_edit_media_content_face_detected_value: bool,
    pub admin_export_data: bool,
    pub admin_moderate_media_content: bool,
    pub admin_moderate_profile_names: bool,
    pub admin_moderate_profile_texts: bool,
    pub admin_process_reports: bool,
    pub admin_delete_media_content: bool,
    pub admin_delete_account: bool,
    pub admin_ban_account: bool,
    pub admin_request_account_deletion: bool,
    /// View public and private profiles.
    pub admin_view_all_profiles: bool,
    pub admin_view_account_state: bool,
    pub admin_view_account_api_usage: bool,
    pub admin_view_account_ip_address_usage: bool,
    pub admin_view_profile_history: bool,
    pub admin_view_permissions: bool,
    pub admin_view_email_address: bool,
    pub admin_find_account_by_email_address: bool,
    /// View server infrastructure related info like logs and
    /// software versions.
    pub admin_server_maintenance_view_info: bool,
    pub admin_server_maintenance_view_backend_config: bool,
    pub admin_server_maintenance_update_software: bool,
    pub admin_server_maintenance_reset_data: bool,
    pub admin_server_maintenance_restart_backend: bool,
    pub admin_server_maintenance_save_backend_config: bool,
    pub admin_server_maintenance_edit_notification: bool,
    pub admin_news_create: bool,
    pub admin_news_edit_all: bool,
    pub admin_profile_statistics: bool,
    pub admin_subscribe_admin_notifications: bool,
}

impl Default for Permissions {
    fn default() -> (r: Self)
        ensures
            r.none_granted(),
    {
        Self {
            admin_change_email_address: false,
            admin_edit_login: false,
            admin_edit_permissions: false,
            admin_edit_profile_name: false,
            admin_edit_max_public_key_count: false,
            admin_edit_media_content_face_detected_value: false,
            admin_export_data: false,
            admin_moderate_media_content: false,
            admin_moderate_profile_names: false,
            admin_moderate_profile_texts: false,
            admin_process_reports: false,
            admin_delete_media_content: false,
            admin_delete_account: false,
            admin_ban_account: false,
            admin_request_account_deletion: false,
            admin_view_all_profiles: false,
            admin_view_account_state: false,
            admin_view_account_api_usage: false,
            admin_view_account_ip_address_usage: false,
            admin_view_profile_history: false,
            admin_view_permissions: false,
            admin_view_email_address: false,
            admin_find_account_by_email_address: false,
            admin_server_maintenance_view_info: false,
            admin_server_maintenance_view_backend_config: false,
            admin_server_maintenance_update_software: false,
            admin_server_maintenance_reset_data: false,
            admin_server_maintenance_restart_backend: false,
            admin_server_maintenance_save_backend_config: false,
            admin_server_maintenance_edit_notification: false,
            admin_news_create: false,
            admin_news_edit_all: false,
            admin_profile_statistics: false,
            admin_subscribe_admin_notifications: false,
        }
    }
}

impl Permissions {
    /// Every permission is granted.
    pub open spec fn all_granted(&self) -> bool {
        &&& self.admin_change_email_address
        &&& self.admin_edit_login
        &&& self.admin_edit_permissions
        &&& self.admin_edit_profile_name
        &&& self.admin_edit_max_public_key_count
        &&& self.admin_edit_media_content_face_detected_value
        &&& self.admin_export_data
        &&& self.admin_moderate_media_content
        &&& self.admin_moderate_profile_names
        &&& self.admin_moderate_profile_texts
        &&& self.admin_process_reports
        &&& self.admin_delete_media_content
        &&& self.admin_delete_account
        &&& self.admin_ban_account
        &&& self.admin_request_account_deletion
        &&& self.admin_view_all_profiles
        &&& self.admin_view_account_state
        &&& self.admin_view_account_api_usage
        &&& self.admin_view_account_ip_address_usage
        &&& self.admin_view_profile_history
        &&& self.admin_view_permissions
        &&& self.admin_view_email_address
        &&& self.admin_find_account_by_email_address
        &&& self.admin_server_maintenance_view_info
        &&& self.admin_server_maintenance_view_backend_config
        &&& self.admin_server_maintenance_update_software
        &&& self.admin_server_maintenance_reset_data
        &&& self.admin_server_maintenance_restart_backend
        &&& self.admin_server_maintenance_save_backend_config
        &&& self.admin_server_maintenance_edit_notification
        &&& self.admin_news_create
        &&& self.admin_news_edit_all
        &&& self.admin_profile_statistics
        &&& self.admin_subscribe_admin_notifications
    }

    /// No permission is granted.
    pub open spec fn none_granted(&self) -> bool {
        &&& !self.admin_change_email_address
        &&& !self.admin_edit_login
        &&& !self.admin_edit_permissions
        &&& !self.admin_edit_profile_name
        &&& !self.admin_edit_max_public_key_count
        &&& !self.admin_edit_media_content_face_detected_value
        &&& !self.admin_export_data
        &&& !self.admin_moderate_media_content
        &&& !self.admin_moderate_profile_names
        &&& !self.admin_moderate_profile_texts
        &&& !self.admin_process_reports
        &&& !self.admin_delete_media_content
        &&& !self.admin_delete_account
        &&& !self.admin_ban_account
        &&& !self.admin_request_account_deletion
        &&& !self.admin_view_all_profiles
        &&& !self.admin_view_account_state
        &&& !self.admin_view_account_api_usage
        &&& !self.admin_view_account_ip_address_usage
        &&& !self.admin_view_profile_history
        &&& !self.admin_view_permissions
        &&& !self.admin_view_email_address
        &&& !self.admin_find_account_by_email_address
        &&& !self.admin_server_maintenance_view_info
        &&& !self.admin_server_maintenance_view_backend_config
        &&& !self.admin_server_maintenance_update_software
        &&& !self.admin_server_maintenance_reset_data
        &&& !self.admin_server_maintenance_restart_backend
        &&& !self.admin_server_maintenance_save_backend_config
        &&& !self.admin_server_maintenance_edit_notification
        &&& !self.admin_news_create
        &&& !self.admin_news_edit_all
        &&& !self.admin_profile_statistics
        &&& !self.admin_subscribe_admin_notifications
    }

    pub fn all_enabled() -> (r: Self)
        ensures
            r.all_granted(),
    {
        Self {
            admin_change_email_address: true,
            admin_edit_login: true,
            admin_edit_permissions: true,
            admin_edit_profile_name: true,
            admin_edit_max_public_key_count: true,
            admin_edit_media_content_face_detected_value: true,
            admin_export_data: true,
            admin_moderate_media_content: true,
            admin_moderate_profile_names: true,
            admin_moderate_profile_texts: true,
            admin_process_reports: true,
            admin_delete_media_content: true,
            admin_delete_account: true,
            admin_ban_account: true,
            admin_request_account_deletion: true,
            admin_view_all_profiles: true,
            admin_view_account_state: true,
            admin_view_account_api_usage: true,
            admin_view_account_ip_address_usage: true,
            admin_view_profile_history: true,
            admin_view_permissions: true,
            admin_view_email_address: true,
            admin_find_account_by_email_address: true,
            admin_server_maintenance_view_info: true,
            admin_server_maintenance_view_backend_config: true,
            admin_server_maintenance_update_software: true,
            admin_server_maintenance_reset_data: true,
            admin_server_maintenance_restart_backend: true,
            admin_server_maintenance_save_backend_config: true,
            admin_server_maintenance_edit_notification: true,
            admin_news_create: true,
            admin_news_edit_all: true,
            admin_profile_statistics: true,
            admin_subscribe_admin_notifications: true,
        }
    }

    pub fn some_admin_news_permissions_granted(&self) -> (r: bool)
        ensures
            r == (self.admin_news_create || self.admin_news_edit_all),
    {
        self.admin_news_create || self.admin_news_edit_all
    }
}

/// Profile visibility.
#[derive(Debug, Clone, Copy, PartialEq, Eq, Structural)]
pub enum ProfileVisibility {
    /// Profile is currently private and its visibility is not
    /// changed when initial moderation request will be moderated as accepted.
    PendingPrivate,
    /// Profile is currently private and its visibility will
    /// change to public when initial moderation request will be moderated as
    /// accepted.
    PendingPublic,
    /// Profile is currently private.
    Private,
    /// Profile is currently public.
    Public,
}

impl Default for ProfileVisibility {
    fn default() -> (r: Self)
        ensures
            r == ProfileVisibility::PendingPrivate,
    {
        Self::PendingPrivate
    }
}

impl ProfileVisibility {
    /// Database number: PendingPrivate 0, PendingPublic 1, Private 2, Public 3.
    pub open spec fn spec_to_i16(self) -> i16 {
        match self {
            Self::PendingPrivate => 0,
            Self::PendingPublic => 1,
            Self::Private => 2,
            Self::Public => 3,
        }
    }

    /// Each variant has the number that the documentation gives it.
    pub proof fn lemma_documented_numbers(self)
        ensures
            self is PendingPrivate ==> self.spec_to_i16() == 0,
            self is PendingPublic ==> self.spec_to_i16() == 1,
            self is Private ==> self.spec_to_i16() == 2,
            self is Public ==> self.spec_to_i16() == 3,
    {
    }

    pub fn to_i16(self) -> (r: i16)
        ensures
            r == self.spec_to_i16(),
    {
        match self {
            Self::PendingPrivate => 0,
            Self::PendingPublic => 1,
            Self::Private => 2,
            Self::Public => 3,
        }
    }

    pub fn try_from_i16(v: i16) -> (r: Result<Self, EnumParsingError>)
        ensures
            match r {
                Ok(t) => t.spec_to_i16() == v,
                Err(e) => e == EnumParsingError::ParsingError(v as i64) && !(0 <= v <= 3),
            },
    {
        if v == 0 {
            Ok(Self::PendingPrivate)
        } else if v == 1 {
            Ok(Self::PendingPublic)
        } else if v == 2 {
            Ok(Self::Private)
        } else if v == 3 {
            Ok(Self::Public)
        } else {
            Err(EnumParsingError::ParsingError(v as i64))
        }
    }

    pub fn is_currently_public(&self) -> (r: bool)
        ensures
            r == (*self == ProfileVisibility::Public),
    {
        *self == Self::Public
    }

    pub fn is_pending(&self) -> (r: bool)
        ensures
            r == (*self == ProfileVisibility::PendingPrivate || *self == ProfileVisibility::PendingPublic),
    {
        *self == Self::PendingPrivate || *self == Self::PendingPublic
    }

    /// Private for a settled visibility, pending private for a pending one.
    pub open spec fn spec_private_or_pending_private(self) -> Self {
        match self {
            Self::Public | Self::Private => Self::Private,
            Self::PendingPublic | Self::PendingPrivate => Self::PendingPrivate,
        }
    }

    pub fn change_to_private_or_pending_private(&mut self)
        ensures
            *final(self) == old(self).spec_private_or_pending_private(),
    {
        match *self {
            Self::Public | Self::Private => *self = Self::Private,
            Self::PendingPublic | Self::PendingPrivate => *self = Self::PendingPrivate,
        };
    }
}

/// Making a profile private never makes it public, keeps whether it is
/// pending, and a second change changes nothing.
pub proof fn lemma_change_to_private(v: ProfileVisibility)
    ensures
        v.spec_private_or_pending_private() != ProfileVisibility::Public,
        (v.spec_private_or_pending_private() == ProfileVisibility::PendingPrivate)
            == (v == ProfileVisibility::PendingPrivate || v == ProfileVisibility::PendingPublic),
        v.spec_private_or_pending_private().spec_private_or_pending_private()
            == v.spec_private_or_pending_private(),
{
}

/// Account state, permissions, visibility and sync version of an account.
#[derive(Debug, Clone, Copy, PartialEq, Eq, Structural)]
pub struct Account {
    pub state: AccountStateContainer,
    pub permissions: Permissions,
    pub visibility: ProfileVisibility,
    pub email_verified: bool,
    pub sync_version: AccountSyncVersion,
}

impl Default for Account {
    fn default() -> (r: Self)
        ensures
            r.state == (AccountStateContainer { initial_setup_completed: false, banned: false, pending_deletion: false }),
            r.permissions.none_granted(),
            r.visibility == ProfileVisibility::PendingPrivate,
            !r.email_verified,
            r.sync_version.version.version == 0,
    {
        Self {
            state: AccountStateContainer::default(),
            permissions: Permissions::default(),
            visibility: ProfileVisibility::default(),
            email_verified: false,
            sync_version: AccountSyncVersion::default(),
        }
    }
}

impl Account {
    pub fn new() -> (r: Self)
        ensures
            r.state == (AccountStateContainer { initial_setup_completed: false, banned: false, pending_deletion: false }),
            r.permissions.none_granted(),
            r.visibility == ProfileVisibility::PendingPrivate,
            !r.email_verified,
            r.sync_version.version.version == 0,
    {
        Self::default()
    }

    pub fn new_from(
        permissions: Permissions,
        state: AccountStateContainer,
        visibility: ProfileVisibility,
        email_verified: bool,
        sync_version: AccountSyncVersion,
    ) -> (r: Self)
        ensures
            r == (Self { state, permissions, visibility, email_verified, sync_version }),
    {
        Self { permissions, state, visibility, email_verified, sync_version }
    }

    pub fn new_from_internal_types(
        permissions: Permissions,
        shared_state: crate::common::AccountStateRelatedSharedState,
    ) -> (r: Self)
        ensures
            r == (Self {
                state: AccountStateContainer {
                    initial_setup_completed: shared_state.account_state_initial_setup_completed,
                    banned: shared_state.account_state_banned,
                    pending_deletion: shared_state.account_state_pending_deletion,
                },
                permissions,
                visibility: shared_state.profile_visibility_state_number,
                email_verified: shared_state.email_verified,
                sync_version: shared_state.sync_version,
            }),
    {
        Self {
            state: AccountStateContainer {
                initial_setup_completed: shared_state.account_state_initial_setup_completed,
                banned: shared_state.account_state_banned,
                pending_deletion: shared_state.account_state_pending_deletion,
            },
            permissions,
            visibility: shared_state.profile_visibility(),
            email_verified: shared_state.email_verified,
            sync_version: shared_state.sync_version,
        }
    }

    pub fn state_container(&self) -> (r: AccountStateContainer)
        ensures
            r == self.state,
    {
        self.state
    }

    pub fn state(&self) -> (r: AccountState)
        ensures
            r == self.state.spec_account_state(),
    {
        self.state.account_state()
    }

    pub fn permissions(&self) -> (r: Permissions)
        ensures
            r == self.permissions,
    {
        self.permissions
    }

    pub fn profile_visibility(&self) -> (r: ProfileVisibility)
        ensures
            r == self.visibility,
    {
        self.visibility
    }

    pub fn sync_version(&self) -> (r: AccountSyncVersion)
        ensures
            r == self.sync_version,
    {
        self.sync_version
    }

    pub fn email_verified(&self) -> (r: bool)
        ensures
            r == self.email_verified,
    {
        self.email_verified
    }
}

/// UUID which client owns.
#[derive(Debug, Clone, Copy, PartialEq, Eq, Structural)]
pub struct ClientLocalId {
    pub id: UuidBase64Url,
}

impl ClientLocalId {
    pub fn new(id: UuidBase64Url) -> (r: Self)
        ensures
            r.id == id,
    {
        Self { id }
    }

    pub fn id(&self) -> (r: UuidBase64Url)
        ensures
            r == self.id,
    {
        self.id
    }
}

/// Emails that the server sends.
#[derive(Debug, Clone, Copy, PartialEq, Eq, Structural)]
pub enum EmailMessages {
    /// Email sending code must generate and save the verification token to DB
    EmailVerification,
    NewMessage,
    NewLike,
    AccountDeletionRemainderFirst,
    AccountDeletionRemainderSecond,
    AccountDeletionRemainderThird,
    /// Email sending code must read the verification token from DB
    EmailChangeVerification,
    EmailChangeNotification,
    /// Email sending code must read the login token from DB
    EmailLoginToken,
}

impl EmailMessages {
    /// All email message types in declaration order.
    pub fn variants() -> (r: Vec<Self>)
        ensures
            r@ == seq![
                EmailMessages::EmailVerification,
                EmailMessages::NewMessage,
                EmailMessages::NewLike,
                EmailMessages::AccountDeletionRemainderFirst,
                EmailMessages::AccountDeletionRemainderSecond,
                EmailMessages::AccountDeletionRemainderThird,
                EmailMessages::EmailChangeVerification,
                EmailMessages::EmailChangeNotification,
                EmailMessages::EmailLoginToken,
            ],
    {
        let r = vec![
            Self::EmailVerification,
            Self::NewMessage,
            Self::NewLike,
            Self::AccountDeletionRemainderFirst,
            Self::AccountDeletionRemainderSecond,
            Self::AccountDeletionRemainderThird,
            Self::EmailChangeVerification,
            Self::EmailChangeNotification,
            Self::EmailLoginToken,
        ];
        assert(r@ =~= seq![
            EmailMessages::EmailVerification,
            EmailMessages::NewMessage,
            EmailMessages::NewLike,
            EmailMessages::AccountDeletionRemainderFirst,
            EmailMessages::AccountDeletionRemainderSecond,
            EmailMessages::AccountDeletionRemainderThird,
            EmailMessages::EmailChangeVerification,
            EmailMessages::EmailChangeNotification,
            EmailMessages::EmailLoginToken,
        ]);
        r
    }
}

/// Account that a demo mode login can access.
#[derive(Debug, Clone)]
pub struct AccessibleAccount {
    pub aid: AccountId,
    pub name: Option<NonEmptyString>,
    pub age: Option<ProfileAge>,
}

impl ProfileVisibility {
    /// Different values have different numbers, so reading a value's
    /// number back gives the value.
    pub proof fn lemma_number_injective(a: Self, b: Self)
        ensures
            a.spec_to_i16() == b.spec_to_i16() <==> a == b,
    {
    }
}

} // verus!
