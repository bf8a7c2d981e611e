//! Admin bot configuration: moderation actions and the prompts of the
//! language model checks.
use vstd::prelude::*;

use crate::text::text;

verus! {

/// What the admin bot does with moderated content.
#[derive(Debug, Clone, Copy, PartialEq, Eq, Structural)]
pub enum ModerationAction {
    Accept,
    Reject,
    MoveToHuman,
}

/// Accept or reject.
#[derive(Debug, Clone, Copy, PartialEq, Eq, Structural)]
pub enum AcceptOrReject {
    Accept,
    Reject,
}

/// Face verification by the admin bot.
#[derive(Debug, Clone)]
pub struct AdminBotFaceVerificationConfig {
    pub llm_enabled: bool,
    pub llm: AdminBotFaceVerificationLlmConfig,
    pub default_action: AcceptOrReject,
}

/// Language model prompt of face verification.
#[derive(Debug, Clone)]
pub struct AdminBotFaceVerificationLlmConfig {
    pub system_text: String,
    pub expected_response: String,
}

/// Account verification by the admin bot.
#[derive(Debug, Clone)]
pub struct AdminBotAccountVerificationConfig {
    pub profile_age_range_enabled: bool,
    pub profile_name_enabled: bool,
    pub security_content_enabled: bool,
    pub security_content: AdminBotSecurityContentVerificationConfig,
}

/// Security content verification by the admin bot.
#[derive(Debug, Clone)]
pub struct AdminBotSecurityContentVerificationConfig {
    pub llm_enabled: bool,
    pub llm: AdminBotSecurityContentVerificationLlmConfig,
    pub default_action: AcceptOrReject,
}

/// Language model prompt of security content verification.
#[derive(Debug, Clone)]
pub struct AdminBotSecurityContentVerificationLlmConfig {
    pub system_text: String,
    pub expected_response: String,
}

/// Language model prompt of profile text report processing.
#[derive(Debug, Clone)]
pub struct AdminBotReportProcessingProfileStringLlmConfig {
    pub system_text: String,
    pub user_text_template: String,
    pub expected_response: String,
}

/// Language model prompt of profile content report processing.
#[derive(Debug, Clone)]
pub struct AdminBotReportProcessingProfileContentLlmConfig {
    pub system_text: String,
    pub expected_response: String,
}

/// Language model prompt of chat message report processing.
#[derive(Debug, Clone)]
pub struct AdminBotReportProcessingMessagesLlmConfig {
    pub system_text: String,
    pub user_text_template: String,
    pub report_creator_message_template: String,
    pub report_target_message_template: String,
    pub expected_response: String,
}

/// Report processing by the admin bot.
#[derive(Debug, Clone)]
pub struct AdminBotReportProcessingConfig {
    pub profile_name_enabled: bool,
    pub profile_name: AdminBotReportProcessingProfileStringLlmConfig,
    pub profile_name_default_action: AcceptOrReject,
    pub profile_text_enabled: bool,
    pub profile_text: AdminBotReportProcessingProfileStringLlmConfig,
    pub profile_text_default_action: AcceptOrReject,
    pub profile_content_enabled: bool,
    pub profile_content: AdminBotReportProcessingProfileContentLlmConfig,
    pub profile_content_default_action: AcceptOrReject,
    pub messages_enabled: bool,
    pub messages: AdminBotReportProcessingMessagesLlmConfig,
    pub messages_default_action: AcceptOrReject,
}

/// Profile name or text moderation by the admin bot.
#[derive(Debug, Clone)]
pub struct AdminBotProfileStringModerationConfig {
    pub accept_single_visible_character: bool,
    pub llm_enabled: bool,
    pub llm: AdminBotStringModerationLlmConfig,
    pub default_action: ModerationAction,
}

/// Language model prompt of profile string moderation.
#[derive(Debug, Clone)]
pub struct AdminBotStringModerationLlmConfig {
    pub system_text: String,
    pub user_text_template: String,
    pub expected_response: String,
    pub move_rejected_to_human_moderation: bool,
    pub add_llm_output_to_user_visible_rejection_details: bool,
}

impl Default for AdminBotStringModerationLlmConfig {
    fn default() -> (r: Self)
        ensures
            r.system_text@ == "You are a dating app text moderator. Output 'accepted' when the text is safe for a dating app. Output 'rejected' when it's not."@,
            r.user_text_template@ == "Text:\n\n{text}"@,
            r.expected_response@ == "accepted"@,
            r.move_rejected_to_human_moderation == false,
            r.add_llm_output_to_user_visible_rejection_details == false,
    {
        Self {
            system_text: text("You are a dating app text moderator. Output 'accepted' when the text is safe for a dating app. Output 'rejected' when it's not."),
            user_text_template: text("Text:\n\n{text}"),
            expected_response: text("accepted"),
            move_rejected_to_human_moderation: false,
            add_llm_output_to_user_visible_rejection_details: false,
        }
    }
}

/// Language model prompt of image moderation.
#[derive(Debug, Clone)]
pub struct AdminBotContentModerationLlmConfig {
    pub system_text: String,
    pub expected_response: String,
    pub ignore_rejected: bool,
    pub delete_accepted: bool,
    pub move_accepted_to_human_moderation: bool,
    pub move_rejected_to_human_moderation: bool,
    pub add_llm_output_to_user_visible_rejection_details: bool,
}

impl Default for AdminBotContentModerationLlmConfig {
    fn default() -> (r: Self)
        ensures
            r.system_text@ == "You are a dating app image moderator. Output 'accepted' when the image is safe for a dating app. Output 'rejected' when it's not."@,
            r.expected_response@ == "accepted"@,
            r.ignore_rejected == false,
            r.delete_accepted == false,
            r.move_accepted_to_human_moderation == false,
            r.move_rejected_to_human_moderation == false,
            r.add_llm_output_to_user_visible_rejection_details == false,
    {
        Self {
            system_text: text("You are a dating app image moderator. Output 'accepted' when the image is safe for a dating app. Output 'rejected' when it's not."),
            expected_response: text("accepted"),
            ignore_rejected: false,
            delete_accepted: false,
            move_accepted_to_human_moderation: false,
            move_rejected_to_human_moderation: false,
            add_llm_output_to_user_visible_rejection_details: false,
        }
    }
}


/// Platforms on which new accounts can be registered.
#[derive(Debug, Clone, Copy, PartialEq, Eq, Structural)]
pub struct AccountRegistrationPlatforms {
    pub android: bool,
    pub ios: bool,
    pub web: bool,
}

impl Default for AccountRegistrationPlatforms {
    fn default() -> (r: Self)
        ensures
            r.android && r.ios && r.web,
    {
        Self { android: true, ios: true, web: true }
    }
}

/// Platforms from which accounts can log in.
#[derive(Debug, Clone, Copy, PartialEq, Eq, Structural)]
pub struct AccountLoginPlatforms {
    pub android: bool,
    pub ios: bool,
    pub web: bool,
}

impl Default for AccountLoginPlatforms {
    fn default() -> (r: Self)
        ensures
            r.android && r.ios && r.web,
    {
        Self { android: true, ios: true, web: true }
    }
}

/// Server configuration that admins can change at run time.
#[derive(Debug, Clone, Copy, PartialEq, Eq, Structural)]
pub struct DynamicServerConfig {
    pub account_registration_platforms: AccountRegistrationPlatforms,
    pub account_login_platforms: AccountLoginPlatforms,
}

} // verus!
