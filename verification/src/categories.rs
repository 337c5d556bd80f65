//! The categories of message tables, each with its numeric id and its
//! name, and the reading of a category from a table's name.
use vstd::prelude::*;

use crate::text::chars_equal;
use crate::text::chars_of;

verus! {

/// The number of message-table categories.
pub const CATEGORY_COUNT: usize = 128;

/// A category of message table (item names, captions, menu texts, ...),
/// in the base game and in each of its two expansions.
#[derive(Debug, Clone, Copy, PartialEq, Eq, Structural)]
pub enum FmgCategories {
    TalkMsg,
    BloodMsg,
    MovieSubtitle,
    GoodsName,
    WeaponName,
    ProtectorName,
    AccessoryName,
    MagicName,
    NpcName,
    PlaceName,
    GoodsInfo,
    WeaponInfo,
    ProtectorInfo,
    AccessoryInfo,
    GoodsCaption,
    WeaponCaption,
    ProtectorCaption,
    AccessoryCaption,
    MagicInfo,
    MagicCaption,
    NetworkMessage,
    ActionButtonText,
    EventTextForTalk,
    EventTextForMap,
    GemName,
    GemInfo,
    GemCaption,
    GoodsDialog,
    ArtsName,
    ArtsCaption,
    WeaponEffect,
    GemEffect,
    GoodsInfo2,
    GrMenuText,
    GrLineHelp,
    GrKeyGuide,
    GrSystemMessageWin64,
    GrDialogues,
    LoadingTitle,
    LoadingText,
    TutorialTitle,
    TutorialBody,
    TextEmbedImageNameWin64,
    ToSWin64,
    WeaponNameDlc01,
    WeaponInfoDlc01,
    WeaponCaptionDlc01,
    ProtectorNameDlc01,
    ProtectorInfoDlc01,
    ProtectorCaptionDlc01,
    AccessoryNameDlc01,
    AccessoryInfoDlc01,
    AccessoryCaptionDlc01,
    GoodsNameDlc01,
    GoodsInfoDlc01,
    GoodsCaptionDlc01,
    GemNameDlc01,
    GemInfoDlc01,
    GemCaptionDlc01,
    MagicNameDlc01,
    MagicInfoDlc01,
    MagicCaptionDlc01,
    NpcNameDlc01,
    PlaceNameDlc01,
    GoodsDialogDlc01,
    ArtsNameDlc01,
    ArtsCaptionDlc01,
    WeaponEffectDlc01,
    GemEffectDlc01,
    GoodsInfo2Dlc01,
    TalkMsgDlc01,
    BloodMsgDlc01,
    MovieSubtitleDlc01,
    NetworkMessageDlc01,
    ActionButtonTextDlc01,
    EventTextForTalkDlc01,
    EventTextForMapDlc01,
    GrMenuTextDlc01,
    GrLineHelpDlc01,
    GrKeyGuideDlc01,
    GrSystemMessageWin64Dlc01,
    GrDialoguesDlc01,
    LoadingTitleDlc01,
    LoadingTextDlc01,
    TutorialTitleDlc01,
    TutorialBodyDlc01,
    WeaponNameDlc02,
    WeaponInfoDlc02,
    WeaponCaptionDlc02,
    ProtectorNameDlc02,
    ProtectorInfoDlc02,
    ProtectorCaptionDlc02,
    AccessoryNameDlc02,
    AccessoryInfoDlc02,
    AccessoryCaptionDlc02,
    GoodsNameDlc02,
    GoodsInfoDlc02,
    GoodsCaptionDlc02,
    GemNameDlc02,
    GemInfoDlc02,
    GemCaptionDlc02,
    MagicNameDlc02,
    MagicInfoDlc02,
    MagicCaptionDlc02,
    NpcNameDlc02,
    PlaceNameDlc02,
    GoodsDialogDlc02,
    ArtsNameDlc02,
    ArtsCaptionDlc02,
    WeaponEffectDlc02,
    GemEffectDlc02,
    GoodsInfo2Dlc02,
    TalkMsgDlc02,
    BloodMsgDlc02,
    MovieSubtitleDlc02,
    NetworkMessageDlc02,
    ActionButtonTextDlc02,
    EventTextForTalkDlc02,
    EventTextForMapDlc02,
    GrMenuTextDlc02,
    GrLineHelpDlc02,
    GrKeyGuideDlc02,
    GrSystemMessageWin64Dlc02,
    GrDialoguesDlc02,
    LoadingTitleDlc02,
    LoadingTextDlc02,
    TutorialTitleDlc02,
    TutorialBodyDlc02,
}

impl FmgCategories {
    /// The numeric id of the category.
    pub open spec fn spec_id(self) -> u32 {
        match self {
            FmgCategories::TalkMsg => 1,
            FmgCategories::BloodMsg => 2,
            FmgCategories::MovieSubtitle => 3,
            FmgCategories::GoodsName => 10,
            FmgCategories::WeaponName => 11,
            FmgCategories::ProtectorName => 12,
            FmgCategories::AccessoryName => 13,
            FmgCategories::MagicName => 14,
            FmgCategories::NpcName => 18,
            FmgCategories::PlaceName => 19,
            FmgCategories::GoodsInfo => 20,
            FmgCategories::WeaponInfo => 21,
            FmgCategories::ProtectorInfo => 22,
            FmgCategories::AccessoryInfo => 23,
            FmgCategories::GoodsCaption => 24,
            FmgCategories::WeaponCaption => 25,
            FmgCategories::ProtectorCaption => 26,
            FmgCategories::AccessoryCaption => 27,
            FmgCategories::MagicInfo => 28,
            FmgCategories::MagicCaption => 29,
            FmgCategories::NetworkMessage => 31,
            FmgCategories::ActionButtonText => 32,
            FmgCategories::EventTextForTalk => 33,
            FmgCategories::EventTextForMap => 34,
            FmgCategories::GemName => 35,
            FmgCategories::GemInfo => 36,
            FmgCategories::GemCaption => 37,
            FmgCategories::GoodsDialog => 41,
            FmgCategories::ArtsName => 42,
            FmgCategories::ArtsCaption => 43,
            FmgCategories::WeaponEffect => 44,
            FmgCategories::GemEffect => 45,
            FmgCategories::GoodsInfo2 => 46,
            FmgCategories::GrMenuText => 200,
            FmgCategories::GrLineHelp => 201,
            FmgCategories::GrKeyGuide => 202,
            FmgCategories::GrSystemMessageWin64 => 203,
            FmgCategories::GrDialogues => 204,
            FmgCategories::LoadingTitle => 205,
            FmgCategories::LoadingText => 206,
            FmgCategories::TutorialTitle => 207,
            FmgCategories::TutorialBody => 208,
            FmgCategories::TextEmbedImageNameWin64 => 209,
            FmgCategories::ToSWin64 => 210,
            FmgCategories::WeaponNameDlc01 => 310,
            FmgCategories::WeaponInfoDlc01 => 311,
            FmgCategories::WeaponCaptionDlc01 => 312,
            FmgCategories::ProtectorNameDlc01 => 313,
            FmgCategories::ProtectorInfoDlc01 => 314,
            FmgCategories::ProtectorCaptionDlc01 => 315,
            FmgCategories::AccessoryNameDlc01 => 316,
            FmgCategories::AccessoryInfoDlc01 => 317,
            FmgCategories::AccessoryCaptionDlc01 => 318,
            FmgCategories::GoodsNameDlc01 => 319,
            FmgCategories::GoodsInfoDlc01 => 320,
            FmgCategories::GoodsCaptionDlc01 => 321,
            FmgCategories::GemNameDlc01 => 322,
            FmgCategories::GemInfoDlc01 => 323,
            FmgCategories::GemCaptionDlc01 => 324,
            FmgCategories::MagicNameDlc01 => 325,
            FmgCategories::MagicInfoDlc01 => 326,
            FmgCategories::MagicCaptionDlc01 => 327,
            FmgCategories::NpcNameDlc01 => 328,
            FmgCategories::PlaceNameDlc01 => 329,
            FmgCategories::GoodsDialogDlc01 => 330,
            FmgCategories::ArtsNameDlc01 => 331,
            FmgCategories::ArtsCaptionDlc01 => 332,
            FmgCategories::WeaponEffectDlc01 => 333,
            FmgCategories::GemEffectDlc01 => 334,
            FmgCategories::GoodsInfo2Dlc01 => 335,
            FmgCategories::TalkMsgDlc01 => 360,
            FmgCategories::BloodMsgDlc01 => 361,
            FmgCategories::MovieSubtitleDlc01 => 362,
            FmgCategories::NetworkMessageDlc01 => 364,
            FmgCategories::ActionButtonTextDlc01 => 365,
            FmgCategories::EventTextForTalkDlc01 => 366,
            FmgCategories::EventTextForMapDlc01 => 367,
            FmgCategories::GrMenuTextDlc01 => 368,
            FmgCategories::GrLineHelpDlc01 => 369,
            FmgCategories::GrKeyGuideDlc01 => 370,
            FmgCategories::GrSystemMessageWin64Dlc01 => 371,
            FmgCategories::GrDialoguesDlc01 => 372,
            FmgCategories::LoadingTitleDlc01 => 373,
            FmgCategories::LoadingTextDlc01 => 374,
            FmgCategories::TutorialTitleDlc01 => 375,
            FmgCategories::TutorialBodyDlc01 => 376,
            FmgCategories::WeaponNameDlc02 => 410,
            FmgCategories::WeaponInfoDlc02 => 411,
            FmgCategories::WeaponCaptionDlc02 => 412,
            FmgCategories::ProtectorNameDlc02 => 413,
            FmgCategories::ProtectorInfoDlc02 => 414,
            FmgCategories::ProtectorCaptionDlc02 => 415,
            FmgCategories::AccessoryNameDlc02 => 416,
            FmgCategories::AccessoryInfoDlc02 => 417,
            FmgCategories::AccessoryCaptionDlc02 => 418,
            FmgCategories::GoodsNameDlc02 => 419,
            FmgCategories::GoodsInfoDlc02 => 420,
            FmgCategories::GoodsCaptionDlc02 => 421,
            FmgCategories::GemNameDlc02 => 422,
            FmgCategories::GemInfoDlc02 => 423,
            FmgCategories::GemCaptionDlc02 => 424,
            FmgCategories::MagicNameDlc02 => 425,
            FmgCategories::MagicInfoDlc02 => 426,
            FmgCategories::MagicCaptionDlc02 => 427,
            FmgCategories::NpcNameDlc02 => 428,
            FmgCategories::PlaceNameDlc02 => 429,
            FmgCategories::GoodsDialogDlc02 => 430,
            FmgCategories::ArtsNameDlc02 => 431,
            FmgCategories::ArtsCaptionDlc02 => 432,
            FmgCategories::WeaponEffectDlc02 => 433,
            FmgCategories::GemEffectDlc02 => 434,
            FmgCategories::GoodsInfo2Dlc02 => 435,
            FmgCategories::TalkMsgDlc02 => 460,
            FmgCategories::BloodMsgDlc02 => 461,
            FmgCategories::MovieSubtitleDlc02 => 462,
            FmgCategories::NetworkMessageDlc02 => 464,
            FmgCategories::ActionButtonTextDlc02 => 465,
            FmgCategories::EventTextForTalkDlc02 => 466,
            FmgCategories::EventTextForMapDlc02 => 467,
            FmgCategories::GrMenuTextDlc02 => 468,
            FmgCategories::GrLineHelpDlc02 => 469,
            FmgCategories::GrKeyGuideDlc02 => 470,
            FmgCategories::GrSystemMessageWin64Dlc02 => 471,
            FmgCategories::GrDialoguesDlc02 => 472,
            FmgCategories::LoadingTitleDlc02 => 473,
            FmgCategories::LoadingTextDlc02 => 474,
            FmgCategories::TutorialTitleDlc02 => 475,
            FmgCategories::TutorialBodyDlc02 => 476,
        }
    }

    /// The numeric id of the category, as the game numbers its message tables.
    pub fn id(self) -> (r: u32)
        ensures
            r == self.spec_id(),
    {
        match self {
            FmgCategories::TalkMsg => 1,
            FmgCategories::BloodMsg => 2,
            FmgCategories::MovieSubtitle => 3,
            FmgCategories::GoodsName => 10,
            FmgCategories::WeaponName => 11,
            FmgCategories::ProtectorName => 12,
            FmgCategories::AccessoryName => 13,
            FmgCategories::MagicName => 14,
            FmgCategories::NpcName => 18,
            FmgCategories::PlaceName => 19,
            FmgCategories::GoodsInfo => 20,
            FmgCategories::WeaponInfo => 21,
            FmgCategories::ProtectorInfo => 22,
            FmgCategories::AccessoryInfo => 23,
            FmgCategories::GoodsCaption => 24,
            FmgCategories::WeaponCaption => 25,
            FmgCategories::ProtectorCaption => 26,
            FmgCategories::AccessoryCaption => 27,
            FmgCategories::MagicInfo => 28,
            FmgCategories::MagicCaption => 29,
            FmgCategories::NetworkMessage => 31,
            FmgCategories::ActionButtonText => 32,
            FmgCategories::EventTextForTalk => 33,
            FmgCategories::EventTextForMap => 34,
            FmgCategories::GemName => 35,
            FmgCategories::GemInfo => 36,
            FmgCategories::GemCaption => 37,
            FmgCategories::GoodsDialog => 41,
            FmgCategories::ArtsName => 42,
            FmgCategories::ArtsCaption => 43,
            FmgCategories::WeaponEffect => 44,
            FmgCategories::GemEffect => 45,
            FmgCategories::GoodsInfo2 => 46,
            FmgCategories::GrMenuText => 200,
            FmgCategories::GrLineHelp => 201,
            FmgCategories::GrKeyGuide => 202,
            FmgCategories::GrSystemMessageWin64 => 203,
            FmgCategories::GrDialogues => 204,
            FmgCategories::LoadingTitle => 205,
            FmgCategories::LoadingText => 206,
            FmgCategories::TutorialTitle => 207,
            FmgCategories::TutorialBody => 208,
            FmgCategories::TextEmbedImageNameWin64 => 209,
            FmgCategories::ToSWin64 => 210,
            FmgCategories::WeaponNameDlc01 => 310,
            FmgCategories::WeaponInfoDlc01 => 311,
            FmgCategories::WeaponCaptionDlc01 => 312,
            FmgCategories::ProtectorNameDlc01 => 313,
            FmgCategories::ProtectorInfoDlc01 => 314,
            FmgCategories::ProtectorCaptionDlc01 => 315,
            FmgCategories::AccessoryNameDlc01 => 316,
            FmgCategories::AccessoryInfoDlc01 => 317,
            FmgCategories::AccessoryCaptionDlc01 => 318,
            FmgCategories::GoodsNameDlc01 => 319,
            FmgCategories::GoodsInfoDlc01 => 320,
            FmgCategories::GoodsCaptionDlc01 => 321,
            FmgCategories::GemNameDlc01 => 322,
            FmgCategories::GemInfoDlc01 => 323,
            FmgCategories::GemCaptionDlc01 => 324,
            FmgCategories::MagicNameDlc01 => 325,
            FmgCategories::MagicInfoDlc01 => 326,
            FmgCategories::MagicCaptionDlc01 => 327,
            FmgCategories::NpcNameDlc01 => 328,
            FmgCategories::PlaceNameDlc01 => 329,
            FmgCategories::GoodsDialogDlc01 => 330,
            FmgCategories::ArtsNameDlc01 => 331,
            FmgCategories::ArtsCaptionDlc01 => 332,
            FmgCategories::WeaponEffectDlc01 => 333,
            FmgCategories::GemEffectDlc01 => 334,
            FmgCategories::GoodsInfo2Dlc01 => 335,
            FmgCategories::TalkMsgDlc01 => 360,
            FmgCategories::BloodMsgDlc01 => 361,
            FmgCategories::MovieSubtitleDlc01 => 362,
            FmgCategories::NetworkMessageDlc01 => 364,
            FmgCategories::ActionButtonTextDlc01 => 365,
            FmgCategories::EventTextForTalkDlc01 => 366,
            FmgCategories::EventTextForMapDlc01 => 367,
            FmgCategories::GrMenuTextDlc01 => 368,
            FmgCategories::GrLineHelpDlc01 => 369,
            FmgCategories::GrKeyGuideDlc01 => 370,
            FmgCategories::GrSystemMessageWin64Dlc01 => 371,
            FmgCategories::GrDialoguesDlc01 => 372,
            FmgCategories::LoadingTitleDlc01 => 373,
            FmgCategories::LoadingTextDlc01 => 374,
            FmgCategories::TutorialTitleDlc01 => 375,
            FmgCategories::TutorialBodyDlc01 => 376,
            FmgCategories::WeaponNameDlc02 => 410,
            FmgCategories::WeaponInfoDlc02 => 411,
            FmgCategories::WeaponCaptionDlc02 => 412,
            FmgCategories::ProtectorNameDlc02 => 413,
            FmgCategories::ProtectorInfoDlc02 => 414,
            FmgCategories::ProtectorCaptionDlc02 => 415,
            FmgCategories::AccessoryNameDlc02 => 416,
            FmgCategories::AccessoryInfoDlc02 => 417,
            FmgCategories::AccessoryCaptionDlc02 => 418,
            FmgCategories::GoodsNameDlc02 => 419,
            FmgCategories::GoodsInfoDlc02 => 420,
            FmgCategories::GoodsCaptionDlc02 => 421,
            FmgCategories::GemNameDlc02 => 422,
            FmgCategories::GemInfoDlc02 => 423,
            FmgCategories::GemCaptionDlc02 => 424,
            FmgCategories::MagicNameDlc02 => 425,
            FmgCategories::MagicInfoDlc02 => 426,
            FmgCategories::MagicCaptionDlc02 => 427,
            FmgCategories::NpcNameDlc02 => 428,
            FmgCategories::PlaceNameDlc02 => 429,
            FmgCategories::GoodsDialogDlc02 => 430,
            FmgCategories::ArtsNameDlc02 => 431,
            FmgCategories::ArtsCaptionDlc02 => 432,
            FmgCategories::WeaponEffectDlc02 => 433,
            FmgCategories::GemEffectDlc02 => 434,
            FmgCategories::GoodsInfo2Dlc02 => 435,
            FmgCategories::TalkMsgDlc02 => 460,
            FmgCategories::BloodMsgDlc02 => 461,
            FmgCategories::MovieSubtitleDlc02 => 462,
            FmgCategories::NetworkMessageDlc02 => 464,
            FmgCategories::ActionButtonTextDlc02 => 465,
            FmgCategories::EventTextForTalkDlc02 => 466,
            FmgCategories::EventTextForMapDlc02 => 467,
            FmgCategories::GrMenuTextDlc02 => 468,
            FmgCategories::GrLineHelpDlc02 => 469,
            FmgCategories::GrKeyGuideDlc02 => 470,
            FmgCategories::GrSystemMessageWin64Dlc02 => 471,
            FmgCategories::GrDialoguesDlc02 => 472,
            FmgCategories::LoadingTitleDlc02 => 473,
            FmgCategories::LoadingTextDlc02 => 474,
            FmgCategories::TutorialTitleDlc02 => 475,
            FmgCategories::TutorialBodyDlc02 => 476,
        }
    }

    /// The name of the category.
    pub open spec fn spec_name(self) -> Seq<char> {
        match self {
            FmgCategories::TalkMsg => "TalkMsg"@,
            FmgCategories::BloodMsg => "BloodMsg"@,
            FmgCategories::MovieSubtitle => "MovieSubtitle"@,
            FmgCategories::GoodsName => "GoodsName"@,
            FmgCategories::WeaponName => "WeaponName"@,
            FmgCategories::ProtectorName => "ProtectorName"@,
            FmgCategories::AccessoryName => "AccessoryName"@,
            FmgCategories::MagicName => "MagicName"@,
            FmgCategories::NpcName => "NpcName"@,
            FmgCategories::PlaceName => "PlaceName"@,
            FmgCategories::GoodsInfo => "GoodsInfo"@,
            FmgCategories::WeaponInfo => "WeaponInfo"@,
            FmgCategories::ProtectorInfo => "ProtectorInfo"@,
            FmgCategories::AccessoryInfo => "AccessoryInfo"@,
            FmgCategories::GoodsCaption => "GoodsCaption"@,
            FmgCategories::WeaponCaption => "WeaponCaption"@,
            FmgCategories::ProtectorCaption => "ProtectorCaption"@,
            FmgCategories::AccessoryCaption => "AccessoryCaption"@,
            FmgCategories::MagicInfo => "MagicInfo"@,
            FmgCategories::MagicCaption => "MagicCaption"@,
            FmgCategories::NetworkMessage => "NetworkMessage"@,
            FmgCategories::ActionButtonText => "ActionButtonText"@,
            FmgCategories::EventTextForTalk => "EventTextForTalk"@,
            FmgCategories::EventTextForMap => "EventTextForMap"@,
            FmgCategories::GemName => "GemName"@,
            FmgCategories::GemInfo => "GemInfo"@,
            FmgCategories::GemCaption => "GemCaption"@,
            FmgCategories::GoodsDialog => "GoodsDialog"@,
            FmgCategories::ArtsName => "ArtsName"@,
            FmgCategories::ArtsCaption => "ArtsCaption"@,
            FmgCategories::WeaponEffect => "WeaponEffect"@,
            FmgCategories::GemEffect => "GemEffect"@,
            FmgCategories::GoodsInfo2 => "GoodsInfo2"@,
            FmgCategories::GrMenuText => "GrMenuText"@,
            FmgCategories::GrLineHelp => "GrLineHelp"@,
            FmgCategories::GrKeyGuide => "GrKeyGuide"@,
            FmgCategories::GrSystemMessageWin64 => "GrSystemMessageWin64"@,
            FmgCategories::GrDialogues => "GrDialogues"@,
            FmgCategories::LoadingTitle => "LoadingTitle"@,
            FmgCategories::LoadingText => "LoadingText"@,
            FmgCategories::TutorialTitle => "TutorialTitle"@,
            FmgCategories::TutorialBody => "TutorialBody"@,
            FmgCategories::TextEmbedImageNameWin64 => "TextEmbedImageNameWin64"@,
            FmgCategories::ToSWin64 => "ToSWin64"@,
            FmgCategories::WeaponNameDlc01 => "WeaponNameDlc01"@,
            FmgCategories::WeaponInfoDlc01 => "WeaponInfoDlc01"@,
            FmgCategories::WeaponCaptionDlc01 => "WeaponCaptionDlc01"@,
            FmgCategories::ProtectorNameDlc01 => "ProtectorNameDlc01"@,
            FmgCategories::ProtectorInfoDlc01 => "ProtectorInfoDlc01"@,
            FmgCategories::ProtectorCaptionDlc01 => "ProtectorCaptionDlc01"@,
            FmgCategories::AccessoryNameDlc01 => "AccessoryNameDlc01"@,
            FmgCategories::AccessoryInfoDlc01 => "AccessoryInfoDlc01"@,
            FmgCategories::AccessoryCaptionDlc01 => "AccessoryCaptionDlc01"@,
            FmgCategories::GoodsNameDlc01 => "GoodsNameDlc01"@,
            FmgCategories::GoodsInfoDlc01 => "GoodsInfoDlc01"@,
            FmgCategories::GoodsCaptionDlc01 => "GoodsCaptionDlc01"@,
            FmgCategories::GemNameDlc01 => "GemNameDlc01"@,
            FmgCategories::GemInfoDlc01 => "GemInfoDlc01"@,
            FmgCategories::GemCaptionDlc01 => "GemCaptionDlc01"@,
            FmgCategories::MagicNameDlc01 => "MagicNameDlc01"@,
            FmgCategories::MagicInfoDlc01 => "MagicInfoDlc01"@,
            FmgCategories::MagicCaptionDlc01 => "MagicCaptionDlc01"@,
            FmgCategories::NpcNameDlc01 => "NpcNameDlc01"@,
            FmgCategories::PlaceNameDlc01 => "PlaceNameDlc01"@,
            FmgCategories::GoodsDialogDlc01 => "GoodsDialogDlc01"@,
            FmgCategories::ArtsNameDlc01 => "ArtsNameDlc01"@,
            FmgCategories::ArtsCaptionDlc01 => "ArtsCaptionDlc01"@,
            FmgCategories::WeaponEffectDlc01 => "WeaponEffectDlc01"@,
            FmgCategories::GemEffectDlc01 => "GemEffectDlc01"@,
            FmgCategories::GoodsInfo2Dlc01 => "GoodsInfo2Dlc01"@,
            FmgCategories::TalkMsgDlc01 => "TalkMsgDlc01"@,
            FmgCategories::BloodMsgDlc01 => "BloodMsgDlc01"@,
            FmgCategories::MovieSubtitleDlc01 => "MovieSubtitleDlc01"@,
            FmgCategories::NetworkMessageDlc01 => "NetworkMessageDlc01"@,
            FmgCategories::ActionButtonTextDlc01 => "ActionButtonTextDlc01"@,
            FmgCategories::EventTextForTalkDlc01 => "EventTextForTalkDlc01"@,
            FmgCategories::EventTextForMapDlc01 => "EventTextForMapDlc01"@,
            FmgCategories::GrMenuTextDlc01 => "GrMenuTextDlc01"@,
            FmgCategories::GrLineHelpDlc01 => "GrLineHelpDlc01"@,
            FmgCategories::GrKeyGuideDlc01 => "GrKeyGuideDlc01"@,
            FmgCategories::GrSystemMessageWin64Dlc01 => "GrSystemMessageWin64Dlc01"@,
            FmgCategories::GrDialoguesDlc01 => "GrDialoguesDlc01"@,
            FmgCategories::LoadingTitleDlc01 => "LoadingTitleDlc01"@,
            FmgCategories::LoadingTextDlc01 => "LoadingTextDlc01"@,
            FmgCategories::TutorialTitleDlc01 => "TutorialTitleDlc01"@,
            FmgCategories::TutorialBodyDlc01 => "TutorialBodyDlc01"@,
            FmgCategories::WeaponNameDlc02 => "WeaponNameDlc02"@,
            FmgCategories::WeaponInfoDlc02 => "WeaponInfoDlc02"@,
            FmgCategories::WeaponCaptionDlc02 => "WeaponCaptionDlc02"@,
            FmgCategories::ProtectorNameDlc02 => "ProtectorNameDlc02"@,
            FmgCategories::ProtectorInfoDlc02 => "ProtectorInfoDlc02"@,
            FmgCategories::ProtectorCaptionDlc02 => "ProtectorCaptionDlc02"@,
            FmgCategories::AccessoryNameDlc02 => "AccessoryNameDlc02"@,
            FmgCategories::AccessoryInfoDlc02 => "AccessoryInfoDlc02"@,
            FmgCategories::AccessoryCaptionDlc02 => "AccessoryCaptionDlc02"@,
            FmgCategories::GoodsNameDlc02 => "GoodsNameDlc02"@,
            FmgCategories::GoodsInfoDlc02 => "GoodsInfoDlc02"@,
            FmgCategories::GoodsCaptionDlc02 => "GoodsCaptionDlc02"@,
            FmgCategories::GemNameDlc02 => "GemNameDlc02"@,
            FmgCategories::GemInfoDlc02 => "GemInfoDlc02"@,
            FmgCategories::GemCaptionDlc02 => "GemCaptionDlc02"@,
            FmgCategories::MagicNameDlc02 => "MagicNameDlc02"@,
            FmgCategories::MagicInfoDlc02 => "MagicInfoDlc02"@,
            FmgCategories::MagicCaptionDlc02 => "MagicCaptionDlc02"@,
            FmgCategories::NpcNameDlc02 => "NpcNameDlc02"@,
            FmgCategories::PlaceNameDlc02 => "PlaceNameDlc02"@,
            FmgCategories::GoodsDialogDlc02 => "GoodsDialogDlc02"@,
            FmgCategories::ArtsNameDlc02 => "ArtsNameDlc02"@,
            FmgCategories::ArtsCaptionDlc02 => "ArtsCaptionDlc02"@,
            FmgCategories::WeaponEffectDlc02 => "WeaponEffectDlc02"@,
            FmgCategories::GemEffectDlc02 => "GemEffectDlc02"@,
            FmgCategories::GoodsInfo2Dlc02 => "GoodsInfo2Dlc02"@,
            FmgCategories::TalkMsgDlc02 => "TalkMsgDlc02"@,
            FmgCategories::BloodMsgDlc02 => "BloodMsgDlc02"@,
            FmgCategories::MovieSubtitleDlc02 => "MovieSubtitleDlc02"@,
            FmgCategories::NetworkMessageDlc02 => "NetworkMessageDlc02"@,
            FmgCategories::ActionButtonTextDlc02 => "ActionButtonTextDlc02"@,
            FmgCategories::EventTextForTalkDlc02 => "EventTextForTalkDlc02"@,
            FmgCategories::EventTextForMapDlc02 => "EventTextForMapDlc02"@,
            FmgCategories::GrMenuTextDlc02 => "GrMenuTextDlc02"@,
            FmgCategories::GrLineHelpDlc02 => "GrLineHelpDlc02"@,
            FmgCategories::GrKeyGuideDlc02 => "GrKeyGuideDlc02"@,
            FmgCategories::GrSystemMessageWin64Dlc02 => "GrSystemMessageWin64Dlc02"@,
            FmgCategories::GrDialoguesDlc02 => "GrDialoguesDlc02"@,
            FmgCategories::LoadingTitleDlc02 => "LoadingTitleDlc02"@,
            FmgCategories::LoadingTextDlc02 => "LoadingTextDlc02"@,
            FmgCategories::TutorialTitleDlc02 => "TutorialTitleDlc02"@,
            FmgCategories::TutorialBodyDlc02 => "TutorialBodyDlc02"@,
        }
    }

    /// The name of the category, as its message table is called.
    pub fn name(self) -> (r: &'static str)
        ensures
            r@ == self.spec_name(),
    {
        match self {
            FmgCategories::TalkMsg => "TalkMsg",
            FmgCategories::BloodMsg => "BloodMsg",
            FmgCategories::MovieSubtitle => "MovieSubtitle",
            FmgCategories::GoodsName => "GoodsName",
            FmgCategories::WeaponName => "WeaponName",
            FmgCategories::ProtectorName => "ProtectorName",
            FmgCategories::AccessoryName => "AccessoryName",
            FmgCategories::MagicName => "MagicName",
            FmgCategories::NpcName => "NpcName",
            FmgCategories::PlaceName => "PlaceName",
            FmgCategories::GoodsInfo => "GoodsInfo",
            FmgCategories::WeaponInfo => "WeaponInfo",
            FmgCategories::ProtectorInfo => "ProtectorInfo",
            FmgCategories::AccessoryInfo => "AccessoryInfo",
            FmgCategories::GoodsCaption => "GoodsCaption",
            FmgCategories::WeaponCaption => "WeaponCaption",
            FmgCategories::ProtectorCaption => "ProtectorCaption",
            FmgCategories::AccessoryCaption => "AccessoryCaption",
            FmgCategories::MagicInfo => "MagicInfo",
            FmgCategories::MagicCaption => "MagicCaption",
            FmgCategories::NetworkMessage => "NetworkMessage",
            FmgCategories::ActionButtonText => "ActionButtonText",
            FmgCategories::EventTextForTalk => "EventTextForTalk",
            FmgCategories::EventTextForMap => "EventTextForMap",
            FmgCategories::GemName => "GemName",
            FmgCategories::GemInfo => "GemInfo",
            FmgCategories::GemCaption => "GemCaption",
            FmgCategories::GoodsDialog => "GoodsDialog",
            FmgCategories::ArtsName => "ArtsName",
            FmgCategories::ArtsCaption => "ArtsCaption",
            FmgCategories::WeaponEffect => "WeaponEffect",
            FmgCategories::GemEffect => "GemEffect",
            FmgCategories::GoodsInfo2 => "GoodsInfo2",
            FmgCategories::GrMenuText => "GrMenuText",
            FmgCategories::GrLineHelp => "GrLineHelp",
            FmgCategories::GrKeyGuide => "GrKeyGuide",
            FmgCategories::GrSystemMessageWin64 => "GrSystemMessageWin64",
            FmgCategories::GrDialogues => "GrDialogues",
            FmgCategories::LoadingTitle => "LoadingTitle",
            FmgCategories::LoadingText => "LoadingText",
            FmgCategories::TutorialTitle => "TutorialTitle",
            FmgCategories::TutorialBody => "TutorialBody",
            FmgCategories::TextEmbedImageNameWin64 => "TextEmbedImageNameWin64",
            FmgCategories::ToSWin64 => "ToSWin64",
            FmgCategories::WeaponNameDlc01 => "WeaponNameDlc01",
            FmgCategories::WeaponInfoDlc01 => "WeaponInfoDlc01",
            FmgCategories::WeaponCaptionDlc01 => "WeaponCaptionDlc01",
            FmgCategories::ProtectorNameDlc01 => "ProtectorNameDlc01",
            FmgCategories::ProtectorInfoDlc01 => "ProtectorInfoDlc01",
            FmgCategories::ProtectorCaptionDlc01 => "ProtectorCaptionDlc01",
            FmgCategories::AccessoryNameDlc01 => "AccessoryNameDlc01",
            FmgCategories::AccessoryInfoDlc01 => "AccessoryInfoDlc01",
            FmgCategories::AccessoryCaptionDlc01 => "AccessoryCaptionDlc01",
            FmgCategories::GoodsNameDlc01 => "GoodsNameDlc01",
            FmgCategories::GoodsInfoDlc01 => "GoodsInfoDlc01",
            FmgCategories::GoodsCaptionDlc01 => "GoodsCaptionDlc01",
            FmgCategories::GemNameDlc01 => "GemNameDlc01",
            FmgCategories::GemInfoDlc01 => "GemInfoDlc01",
            FmgCategories::GemCaptionDlc01 => "GemCaptionDlc01",
            FmgCategories::MagicNameDlc01 => "MagicNameDlc01",
            FmgCategories::MagicInfoDlc01 => "MagicInfoDlc01",
            FmgCategories::MagicCaptionDlc01 => "MagicCaptionDlc01",
            FmgCategories::NpcNameDlc01 => "NpcNameDlc01",
            FmgCategories::PlaceNameDlc01 => "PlaceNameDlc01",
            FmgCategories::GoodsDialogDlc01 => "GoodsDialogDlc01",
            FmgCategories::ArtsNameDlc01 => "ArtsNameDlc01",
            FmgCategories::ArtsCaptionDlc01 => "ArtsCaptionDlc01",
            FmgCategories::WeaponEffectDlc01 => "WeaponEffectDlc01",
            FmgCategories::GemEffectDlc01 => "GemEffectDlc01",
            FmgCategories::GoodsInfo2Dlc01 => "GoodsInfo2Dlc01",
            FmgCategories::TalkMsgDlc01 => "TalkMsgDlc01",
            FmgCategories::BloodMsgDlc01 => "BloodMsgDlc01",
            FmgCategories::MovieSubtitleDlc01 => "MovieSubtitleDlc01",
            FmgCategories::NetworkMessageDlc01 => "NetworkMessageDlc01",
            FmgCategories::ActionButtonTextDlc01 => "ActionButtonTextDlc01",
            FmgCategories::EventTextForTalkDlc01 => "EventTextForTalkDlc01",
            FmgCategories::EventTextForMapDlc01 => "EventTextForMapDlc01",
            FmgCategories::GrMenuTextDlc01 => "GrMenuTextDlc01",
            FmgCategories::GrLineHelpDlc01 => "GrLineHelpDlc01",
            FmgCategories::GrKeyGuideDlc01 => "GrKeyGuideDlc01",
            FmgCategories::GrSystemMessageWin64Dlc01 => "GrSystemMessageWin64Dlc01",
            FmgCategories::GrDialoguesDlc01 => "GrDialoguesDlc01",
            FmgCategories::LoadingTitleDlc01 => "LoadingTitleDlc01",
            FmgCategories::LoadingTextDlc01 => "LoadingTextDlc01",
            FmgCategories::TutorialTitleDlc01 => "TutorialTitleDlc01",
            FmgCategories::TutorialBodyDlc01 => "TutorialBodyDlc01",
            FmgCategories::WeaponNameDlc02 => "WeaponNameDlc02",
            FmgCategories::WeaponInfoDlc02 => "WeaponInfoDlc02",
            FmgCategories::WeaponCaptionDlc02 => "WeaponCaptionDlc02",
            FmgCategories::ProtectorNameDlc02 => "ProtectorNameDlc02",
            FmgCategories::ProtectorInfoDlc02 => "ProtectorInfoDlc02",
            FmgCategories::ProtectorCaptionDlc02 => "ProtectorCaptionDlc02",
            FmgCategories::AccessoryNameDlc02 => "AccessoryNameDlc02",
            FmgCategories::AccessoryInfoDlc02 => "AccessoryInfoDlc02",
            FmgCategories::AccessoryCaptionDlc02 => "AccessoryCaptionDlc02",
            FmgCategories::GoodsNameDlc02 => "GoodsNameDlc02",
            FmgCategories::GoodsInfoDlc02 => "GoodsInfoDlc02",
            FmgCategories::GoodsCaptionDlc02 => "GoodsCaptionDlc02",
            FmgCategories::GemNameDlc02 => "GemNameDlc02",
            FmgCategories::GemInfoDlc02 => "GemInfoDlc02",
            FmgCategories::GemCaptionDlc02 => "GemCaptionDlc02",
            FmgCategories::MagicNameDlc02 => "MagicNameDlc02",
            FmgCategories::MagicInfoDlc02 => "MagicInfoDlc02",
            FmgCategories::MagicCaptionDlc02 => "MagicCaptionDlc02",
            FmgCategories::NpcNameDlc02 => "NpcNameDlc02",
            FmgCategories::PlaceNameDlc02 => "PlaceNameDlc02",
            FmgCategories::GoodsDialogDlc02 => "GoodsDialogDlc02",
            FmgCategories::ArtsNameDlc02 => "ArtsNameDlc02",
            FmgCategories::ArtsCaptionDlc02 => "ArtsCaptionDlc02",
            FmgCategories::WeaponEffectDlc02 => "WeaponEffectDlc02",
            FmgCategories::GemEffectDlc02 => "GemEffectDlc02",
            FmgCategories::GoodsInfo2Dlc02 => "GoodsInfo2Dlc02",
            FmgCategories::TalkMsgDlc02 => "TalkMsgDlc02",
            FmgCategories::BloodMsgDlc02 => "BloodMsgDlc02",
            FmgCategories::MovieSubtitleDlc02 => "MovieSubtitleDlc02",
            FmgCategories::NetworkMessageDlc02 => "NetworkMessageDlc02",
            FmgCategories::ActionButtonTextDlc02 => "ActionButtonTextDlc02",
            FmgCategories::EventTextForTalkDlc02 => "EventTextForTalkDlc02",
            FmgCategories::EventTextForMapDlc02 => "EventTextForMapDlc02",
            FmgCategories::GrMenuTextDlc02 => "GrMenuTextDlc02",
            FmgCategories::GrLineHelpDlc02 => "GrLineHelpDlc02",
            FmgCategories::GrKeyGuideDlc02 => "GrKeyGuideDlc02",
            FmgCategories::GrSystemMessageWin64Dlc02 => "GrSystemMessageWin64Dlc02",
            FmgCategories::GrDialoguesDlc02 => "GrDialoguesDlc02",
            FmgCategories::LoadingTitleDlc02 => "LoadingTitleDlc02",
            FmgCategories::LoadingTextDlc02 => "LoadingTextDlc02",
            FmgCategories::TutorialTitleDlc02 => "TutorialTitleDlc02",
            FmgCategories::TutorialBodyDlc02 => "TutorialBodyDlc02",
        }
    }

    /// The category at a position of the declaration order.
    pub open spec fn spec_from_index(i: int) -> FmgCategories {
        if i == 0 {
            FmgCategories::TalkMsg
        } else if i == 1 {
            FmgCategories::BloodMsg
        } else if i == 2 {
            FmgCategories::MovieSubtitle
        } else if i == 3 {
            FmgCategories::GoodsName
        } else if i == 4 {
            FmgCategories::WeaponName
        } else if i == 5 {
            FmgCategories::ProtectorName
        } else if i == 6 {
            FmgCategories::AccessoryName
        } else if i == 7 {
            FmgCategories::MagicName
        } else if i == 8 {
            FmgCategories::NpcName
        } else if i == 9 {
            FmgCategories::PlaceName
        } else if i == 10 {
            FmgCategories::GoodsInfo
        } else if i == 11 {
            FmgCategories::WeaponInfo
        } else if i == 12 {
            FmgCategories::ProtectorInfo
        } else if i == 13 {
            FmgCategories::AccessoryInfo
        } else if i == 14 {
            FmgCategories::GoodsCaption
        } else if i == 15 {
            FmgCategories::WeaponCaption
        } else if i == 16 {
            FmgCategories::ProtectorCaption
        } else if i == 17 {
            FmgCategories::AccessoryCaption
        } else if i == 18 {
            FmgCategories::MagicInfo
        } else if i == 19 {
            FmgCategories::MagicCaption
        } else if i == 20 {
            FmgCategories::NetworkMessage
        } else if i == 21 {
            FmgCategories::ActionButtonText
        } else if i == 22 {
            FmgCategories::EventTextForTalk
        } else if i == 23 {
            FmgCategories::EventTextForMap
        } else if i == 24 {
            FmgCategories::GemName
        } else if i == 25 {
            FmgCategories::GemInfo
        } else if i == 26 {
            FmgCategories::GemCaption
        } else if i == 27 {
            FmgCategories::GoodsDialog
        } else if i == 28 {
            FmgCategories::ArtsName
        } else if i == 29 {
            FmgCategories::ArtsCaption
        } else if i == 30 {
            FmgCategories::WeaponEffect
        } else if i == 31 {
            FmgCategories::GemEffect
        } else if i == 32 {
            FmgCategories::GoodsInfo2
        } else if i == 33 {
            FmgCategories::GrMenuText
        } else if i == 34 {
            FmgCategories::GrLineHelp
        } else if i == 35 {
            FmgCategories::GrKeyGuide
        } else if i == 36 {
            FmgCategories::GrSystemMessageWin64
        } else if i == 37 {
            FmgCategories::GrDialogues
        } else if i == 38 {
            FmgCategories::LoadingTitle
        } else if i == 39 {
            FmgCategories::LoadingText
        } else if i == 40 {
            FmgCategories::TutorialTitle
        } else if i == 41 {
            FmgCategories::TutorialBody
        } else if i == 42 {
            FmgCategories::TextEmbedImageNameWin64
        } else if i == 43 {
            FmgCategories::ToSWin64
        } else if i == 44 {
            FmgCategories::WeaponNameDlc01
        } else if i == 45 {
            FmgCategories::WeaponInfoDlc01
        } else if i == 46 {
            FmgCategories::WeaponCaptionDlc01
        } else if i == 47 {
            FmgCategories::ProtectorNameDlc01
        } else if i == 48 {
            FmgCategories::ProtectorInfoDlc01
        } else if i == 49 {
            FmgCategories::ProtectorCaptionDlc01
        } else if i == 50 {
            FmgCategories::AccessoryNameDlc01
        } else if i == 51 {
            FmgCategories::AccessoryInfoDlc01
        } else if i == 52 {
            FmgCategories::AccessoryCaptionDlc01
        } else if i == 53 {
            FmgCategories::GoodsNameDlc01
        } else if i == 54 {
            FmgCategories::GoodsInfoDlc01
        } else if i == 55 {
            FmgCategories::GoodsCaptionDlc01
        } else if i == 56 {
            FmgCategories::GemNameDlc01
        } else if i == 57 {
            FmgCategories::GemInfoDlc01
        } else if i == 58 {
            FmgCategories::GemCaptionDlc01
        } else if i == 59 {
            FmgCategories::MagicNameDlc01
        } else if i == 60 {
            FmgCategories::MagicInfoDlc01
        } else if i == 61 {
            FmgCategories::MagicCaptionDlc01
        } else if i == 62 {
            FmgCategories::NpcNameDlc01
        } else if i == 63 {
            FmgCategories::PlaceNameDlc01
        } else if i == 64 {
            FmgCategories::GoodsDialogDlc01
        } else if i == 65 {
            FmgCategories::ArtsNameDlc01
        } else if i == 66 {
            FmgCategories::ArtsCaptionDlc01
        } else if i == 67 {
            FmgCategories::WeaponEffectDlc01
        } else if i == 68 {
            FmgCategories::GemEffectDlc01
        } else if i == 69 {
            FmgCategories::GoodsInfo2Dlc01
        } else if i == 70 {
            FmgCategories::TalkMsgDlc01
        } else if i == 71 {
            FmgCategories::BloodMsgDlc01
        } else if i == 72 {
            FmgCategories::MovieSubtitleDlc01
        } else if i == 73 {
            FmgCategories::NetworkMessageDlc01
        } else if i == 74 {
            FmgCategories::ActionButtonTextDlc01
        } else if i == 75 {
            FmgCategories::EventTextForTalkDlc01
        } else if i == 76 {
            FmgCategories::EventTextForMapDlc01
        } else if i == 77 {
            FmgCategories::GrMenuTextDlc01
        } else if i == 78 {
            FmgCategories::GrLineHelpDlc01
        } else if i == 79 {
            FmgCategories::GrKeyGuideDlc01
        } else if i == 80 {
            FmgCategories::GrSystemMessageWin64Dlc01
        } else if i == 81 {
            FmgCategories::GrDialoguesDlc01
        } else if i == 82 {
            FmgCategories::LoadingTitleDlc01
        } else if i == 83 {
            FmgCategories::LoadingTextDlc01
        } else if i == 84 {
            FmgCategories::TutorialTitleDlc01
        } else if i == 85 {
            FmgCategories::TutorialBodyDlc01
        } else if i == 86 {
            FmgCategories::WeaponNameDlc02
        } else if i == 87 {
            FmgCategories::WeaponInfoDlc02
        } else if i == 88 {
            FmgCategories::WeaponCaptionDlc02
        } else if i == 89 {
            FmgCategories::ProtectorNameDlc02
        } else if i == 90 {
            FmgCategories::ProtectorInfoDlc02
        } else if i == 91 {
            FmgCategories::ProtectorCaptionDlc02
        } else if i == 92 {
            FmgCategories::AccessoryNameDlc02
        } else if i == 93 {
            FmgCategories::AccessoryInfoDlc02
        } else if i == 94 {
            FmgCategories::AccessoryCaptionDlc02
        } else if i == 95 {
            FmgCategories::GoodsNameDlc02
        } else if i == 96 {
            FmgCategories::GoodsInfoDlc02
        } else if i == 97 {
            FmgCategories::GoodsCaptionDlc02
        } else if i == 98 {
            FmgCategories::GemNameDlc02
        } else if i == 99 {
            FmgCategories::GemInfoDlc02
        } else if i == 100 {
            FmgCategories::GemCaptionDlc02
        } else if i == 101 {
            FmgCategories::MagicNameDlc02
        } else if i == 102 {
            FmgCategories::MagicInfoDlc02
        } else if i == 103 {
            FmgCategories::MagicCaptionDlc02
        } else if i == 104 {
            FmgCategories::NpcNameDlc02
        } else if i == 105 {
            FmgCategories::PlaceNameDlc02
        } else if i == 106 {
            FmgCategories::GoodsDialogDlc02
        } else if i == 107 {
            FmgCategories::ArtsNameDlc02
        } else if i == 108 {
            FmgCategories::ArtsCaptionDlc02
        } else if i == 109 {
            FmgCategories::WeaponEffectDlc02
        } else if i == 110 {
            FmgCategories::GemEffectDlc02
        } else if i == 111 {
            FmgCategories::GoodsInfo2Dlc02
        } else if i == 112 {
            FmgCategories::TalkMsgDlc02
        } else if i == 113 {
            FmgCategories::BloodMsgDlc02
        } else if i == 114 {
            FmgCategories::MovieSubtitleDlc02
        } else if i == 115 {
            FmgCategories::NetworkMessageDlc02
        } else if i == 116 {
            FmgCategories::ActionButtonTextDlc02
        } else if i == 117 {
            FmgCategories::EventTextForTalkDlc02
        } else if i == 118 {
            FmgCategories::EventTextForMapDlc02
        } else if i == 119 {
            FmgCategories::GrMenuTextDlc02
        } else if i == 120 {
            FmgCategories::GrLineHelpDlc02
        } else if i == 121 {
            FmgCategories::GrKeyGuideDlc02
        } else if i == 122 {
            FmgCategories::GrSystemMessageWin64Dlc02
        } else if i == 123 {
            FmgCategories::GrDialoguesDlc02
        } else if i == 124 {
            FmgCategories::LoadingTitleDlc02
        } else if i == 125 {
            FmgCategories::LoadingTextDlc02
        } else if i == 126 {
            FmgCategories::TutorialTitleDlc02
        } else {
            FmgCategories::TutorialBodyDlc02
        }
    }

    /// The category at a position of the declaration order.
    pub fn from_index(i: usize) -> (r: FmgCategories)
        requires
            i < CATEGORY_COUNT,
        ensures
            r == Self::spec_from_index(i as int),
    {
        match i {
            0 => FmgCategories::TalkMsg,
            1 => FmgCategories::BloodMsg,
            2 => FmgCategories::MovieSubtitle,
            3 => FmgCategories::GoodsName,
            4 => FmgCategories::WeaponName,
            5 => FmgCategories::ProtectorName,
            6 => FmgCategories::AccessoryName,
            7 => FmgCategories::MagicName,
            8 => FmgCategories::NpcName,
            9 => FmgCategories::PlaceName,
            10 => FmgCategories::GoodsInfo,
            11 => FmgCategories::WeaponInfo,
            12 => FmgCategories::ProtectorInfo,
            13 => FmgCategories::AccessoryInfo,
            14 => FmgCategories::GoodsCaption,
            15 => FmgCategories::WeaponCaption,
            16 => FmgCategories::ProtectorCaption,
            17 => FmgCategories::AccessoryCaption,
            18 => FmgCategories::MagicInfo,
            19 => FmgCategories::MagicCaption,
            20 => FmgCategories::NetworkMessage,
            21 => FmgCategories::ActionButtonText,
            22 => FmgCategories::EventTextForTalk,
            23 => FmgCategories::EventTextForMap,
            24 => FmgCategories::GemName,
            25 => FmgCategories::GemInfo,
            26 => FmgCategories::GemCaption,
            27 => FmgCategories::GoodsDialog,
            28 => FmgCategories::ArtsName,
            29 => FmgCategories::ArtsCaption,
            30 => FmgCategories::WeaponEffect,
            31 => FmgCategories::GemEffect,
            32 => FmgCategories::GoodsInfo2,
            33 => FmgCategories::GrMenuText,
            34 => FmgCategories::GrLineHelp,
            35 => FmgCategories::GrKeyGuide,
            36 => FmgCategories::GrSystemMessageWin64,
            37 => FmgCategories::GrDialogues,
            38 => FmgCategories::LoadingTitle,
            39 => FmgCategories::LoadingText,
            40 => FmgCategories::TutorialTitle,
            41 => FmgCategories::TutorialBody,
            42 => FmgCategories::TextEmbedImageNameWin64,
            43 => FmgCategories::ToSWin64,
            44 => FmgCategories::WeaponNameDlc01,
            45 => FmgCategories::WeaponInfoDlc01,
            46 => FmgCategories::WeaponCaptionDlc01,
            47 => FmgCategories::ProtectorNameDlc01,
            48 => FmgCategories::ProtectorInfoDlc01,
            49 => FmgCategories::ProtectorCaptionDlc01,
            50 => FmgCategories::AccessoryNameDlc01,
            51 => FmgCategories::AccessoryInfoDlc01,
            52 => FmgCategories::AccessoryCaptionDlc01,
            53 => FmgCategories::GoodsNameDlc01,
            54 => FmgCategories::GoodsInfoDlc01,
            55 => FmgCategories::GoodsCaptionDlc01,
            56 => FmgCategories::GemNameDlc01,
            57 => FmgCategories::GemInfoDlc01,
            58 => FmgCategories::GemCaptionDlc01,
            59 => FmgCategories::MagicNameDlc01,
            60 => FmgCategories::MagicInfoDlc01,
            61 => FmgCategories::MagicCaptionDlc01,
            62 => FmgCategories::NpcNameDlc01,
            63 => FmgCategories::PlaceNameDlc01,
            64 => FmgCategories::GoodsDialogDlc01,
            65 => FmgCategories::ArtsNameDlc01,
            66 => FmgCategories::ArtsCaptionDlc01,
            67 => FmgCategories::WeaponEffectDlc01,
            68 => FmgCategories::GemEffectDlc01,
            69 => FmgCategories::GoodsInfo2Dlc01,
            70 => FmgCategories::TalkMsgDlc01,
            71 => FmgCategories::BloodMsgDlc01,
            72 => FmgCategories::MovieSubtitleDlc01,
            73 => FmgCategories::NetworkMessageDlc01,
            74 => FmgCategories::ActionButtonTextDlc01,
            75 => FmgCategories::EventTextForTalkDlc01,
            76 => FmgCategories::EventTextForMapDlc01,
            77 => FmgCategories::GrMenuTextDlc01,
            78 => FmgCategories::GrLineHelpDlc01,
            79 => FmgCategories::GrKeyGuideDlc01,
            80 => FmgCategories::GrSystemMessageWin64Dlc01,
            81 => FmgCategories::GrDialoguesDlc01,
            82 => FmgCategories::LoadingTitleDlc01,
            83 => FmgCategories::LoadingTextDlc01,
            84 => FmgCategories::TutorialTitleDlc01,
            85 => FmgCategories::TutorialBodyDlc01,
            86 => FmgCategories::WeaponNameDlc02,
            87 => FmgCategories::WeaponInfoDlc02,
            88 => FmgCategories::WeaponCaptionDlc02,
            89 => FmgCategories::ProtectorNameDlc02,
            90 => FmgCategories::ProtectorInfoDlc02,
            91 => FmgCategories::ProtectorCaptionDlc02,
            92 => FmgCategories::AccessoryNameDlc02,
            93 => FmgCategories::AccessoryInfoDlc02,
            94 => FmgCategories::AccessoryCaptionDlc02,
            95 => FmgCategories::GoodsNameDlc02,
            96 => FmgCategories::GoodsInfoDlc02,
            97 => FmgCategories::GoodsCaptionDlc02,
            98 => FmgCategories::GemNameDlc02,
            99 => FmgCategories::GemInfoDlc02,
            100 => FmgCategories::GemCaptionDlc02,
            101 => FmgCategories::MagicNameDlc02,
            102 => FmgCategories::MagicInfoDlc02,
            103 => FmgCategories::MagicCaptionDlc02,
            104 => FmgCategories::NpcNameDlc02,
            105 => FmgCategories::PlaceNameDlc02,
            106 => FmgCategories::GoodsDialogDlc02,
            107 => FmgCategories::ArtsNameDlc02,
            108 => FmgCategories::ArtsCaptionDlc02,
            109 => FmgCategories::WeaponEffectDlc02,
            110 => FmgCategories::GemEffectDlc02,
            111 => FmgCategories::GoodsInfo2Dlc02,
            112 => FmgCategories::TalkMsgDlc02,
            113 => FmgCategories::BloodMsgDlc02,
            114 => FmgCategories::MovieSubtitleDlc02,
            115 => FmgCategories::NetworkMessageDlc02,
            116 => FmgCategories::ActionButtonTextDlc02,
            117 => FmgCategories::EventTextForTalkDlc02,
            118 => FmgCategories::EventTextForMapDlc02,
            119 => FmgCategories::GrMenuTextDlc02,
            120 => FmgCategories::GrLineHelpDlc02,
            121 => FmgCategories::GrKeyGuideDlc02,
            122 => FmgCategories::GrSystemMessageWin64Dlc02,
            123 => FmgCategories::GrDialoguesDlc02,
            124 => FmgCategories::LoadingTitleDlc02,
            125 => FmgCategories::LoadingTextDlc02,
            126 => FmgCategories::TutorialTitleDlc02,
            _ => FmgCategories::TutorialBodyDlc02,
        }
    }

    /// Every category stands at some position of the declaration order.
    pub proof fn lemma_listed(c: FmgCategories)
        ensures
            exists|i: int| 0 <= i < CATEGORY_COUNT && Self::spec_from_index(i) == c,
    {
        match c {
            FmgCategories::TalkMsg => assert(Self::spec_from_index(0) == c),
            FmgCategories::BloodMsg => assert(Self::spec_from_index(1) == c),
            FmgCategories::MovieSubtitle => assert(Self::spec_from_index(2) == c),
            FmgCategories::GoodsName => assert(Self::spec_from_index(3) == c),
            FmgCategories::WeaponName => assert(Self::spec_from_index(4) == c),
            FmgCategories::ProtectorName => assert(Self::spec_from_index(5) == c),
            FmgCategories::AccessoryName => assert(Self::spec_from_index(6) == c),
            FmgCategories::MagicName => assert(Self::spec_from_index(7) == c),
            FmgCategories::NpcName => assert(Self::spec_from_index(8) == c),
            FmgCategories::PlaceName => assert(Self::spec_from_index(9) == c),
            FmgCategories::GoodsInfo => assert(Self::spec_from_index(10) == c),
            FmgCategories::WeaponInfo => assert(Self::spec_from_index(11) == c),
            FmgCategories::ProtectorInfo => assert(Self::spec_from_index(12) == c),
            FmgCategories::AccessoryInfo => assert(Self::spec_from_index(13) == c),
            FmgCategories::GoodsCaption => assert(Self::spec_from_index(14) == c),
            FmgCategories::WeaponCaption => assert(Self::spec_from_index(15) == c),
            FmgCategories::ProtectorCaption => assert(Self::spec_from_index(16) == c),
            FmgCategories::AccessoryCaption => assert(Self::spec_from_index(17) == c),
            FmgCategories::MagicInfo => assert(Self::spec_from_index(18) == c),
            FmgCategories::MagicCaption => assert(Self::spec_from_index(19) == c),
            FmgCategories::NetworkMessage => assert(Self::spec_from_index(20) == c),
            FmgCategories::ActionButtonText => assert(Self::spec_from_index(21) == c),
            FmgCategories::EventTextForTalk => assert(Self::spec_from_index(22) == c),
            FmgCategories::EventTextForMap => assert(Self::spec_from_index(23) == c),
            FmgCategories::GemName => assert(Self::spec_from_index(24) == c),
            FmgCategories::GemInfo => assert(Self::spec_from_index(25) == c),
            FmgCategories::GemCaption => assert(Self::spec_from_index(26) == c),
            FmgCategories::GoodsDialog => assert(Self::spec_from_index(27) == c),
            FmgCategories::ArtsName => assert(Self::spec_from_index(28) == c),
            FmgCategories::ArtsCaption => assert(Self::spec_from_index(29) == c),
            FmgCategories::WeaponEffect => assert(Self::spec_from_index(30) == c),
            FmgCategories::GemEffect => assert(Self::spec_from_index(31) == c),
            FmgCategories::GoodsInfo2 => assert(Self::spec_from_index(32) == c),
            FmgCategories::GrMenuText => assert(Self::spec_from_index(33) == c),
            FmgCategories::GrLineHelp => assert(Self::spec_from_index(34) == c),
            FmgCategories::GrKeyGuide => assert(Self::spec_from_index(35) == c),
            FmgCategories::GrSystemMessageWin64 => assert(Self::spec_from_index(36) == c),
            FmgCategories::GrDialogues => assert(Self::spec_from_index(37) == c),
            FmgCategories::LoadingTitle => assert(Self::spec_from_index(38) == c),
            FmgCategories::LoadingText => assert(Self::spec_from_index(39) == c),
            FmgCategories::TutorialTitle => assert(Self::spec_from_index(40) == c),
            FmgCategories::TutorialBody => assert(Self::spec_from_index(41) == c),
            FmgCategories::TextEmbedImageNameWin64 => assert(Self::spec_from_index(42) == c),
            FmgCategories::ToSWin64 => assert(Self::spec_from_index(43) == c),
            FmgCategories::WeaponNameDlc01 => assert(Self::spec_from_index(44) == c),
            FmgCategories::WeaponInfoDlc01 => assert(Self::spec_from_index(45) == c),
            FmgCategories::WeaponCaptionDlc01 => assert(Self::spec_from_index(46) == c),
            FmgCategories::ProtectorNameDlc01 => assert(Self::spec_from_index(47) == c),
            FmgCategories::ProtectorInfoDlc01 => assert(Self::spec_from_index(48) == c),
            FmgCategories::ProtectorCaptionDlc01 => assert(Self::spec_from_index(49) == c),
            FmgCategories::AccessoryNameDlc01 => assert(Self::spec_from_index(50) == c),
            FmgCategories::AccessoryInfoDlc01 => assert(Self::spec_from_index(51) == c),
            FmgCategories::AccessoryCaptionDlc01 => assert(Self::spec_from_index(52) == c),
            FmgCategories::GoodsNameDlc01 => assert(Self::spec_from_index(53) == c),
            FmgCategories::GoodsInfoDlc01 => assert(Self::spec_from_index(54) == c),
            FmgCategories::GoodsCaptionDlc01 => assert(Self::spec_from_index(55) == c),
            FmgCategories::GemNameDlc01 => assert(Self::spec_from_index(56) == c),
            FmgCategories::GemInfoDlc01 => assert(Self::spec_from_index(57) == c),
            FmgCategories::GemCaptionDlc01 => assert(Self::spec_from_index(58) == c),
            FmgCategories::MagicNameDlc01 => assert(Self::spec_from_index(59) == c),
            FmgCategories::MagicInfoDlc01 => assert(Self::spec_from_index(60) == c),
            FmgCategories::MagicCaptionDlc01 => assert(Self::spec_from_index(61) == c),
            FmgCategories::NpcNameDlc01 => assert(Self::spec_from_index(62) == c),
            FmgCategories::PlaceNameDlc01 => assert(Self::spec_from_index(63) == c),
            FmgCategories::GoodsDialogDlc01 => assert(Self::spec_from_index(64) == c),
            FmgCategories::ArtsNameDlc01 => assert(Self::spec_from_index(65) == c),
            FmgCategories::ArtsCaptionDlc01 => assert(Self::spec_from_index(66) == c),
            FmgCategories::WeaponEffectDlc01 => assert(Self::spec_from_index(67) == c),
            FmgCategories::GemEffectDlc01 => assert(Self::spec_from_index(68) == c),
            FmgCategories::GoodsInfo2Dlc01 => assert(Self::spec_from_index(69) == c),
            FmgCategories::TalkMsgDlc01 => assert(Self::spec_from_index(70) == c),
            FmgCategories::BloodMsgDlc01 => assert(Self::spec_from_index(71) == c),
            FmgCategories::MovieSubtitleDlc01 => assert(Self::spec_from_index(72) == c),
            FmgCategories::NetworkMessageDlc01 => assert(Self::spec_from_index(73) == c),
            FmgCategories::ActionButtonTextDlc01 => assert(Self::spec_from_index(74) == c),
            FmgCategories::EventTextForTalkDlc01 => assert(Self::spec_from_index(75) == c),
            FmgCategories::EventTextForMapDlc01 => assert(Self::spec_from_index(76) == c),
            FmgCategories::GrMenuTextDlc01 => assert(Self::spec_from_index(77) == c),
            FmgCategories::GrLineHelpDlc01 => assert(Self::spec_from_index(78) == c),
            FmgCategories::GrKeyGuideDlc01 => assert(Self::spec_from_index(79) == c),
            FmgCategories::GrSystemMessageWin64Dlc01 => assert(Self::spec_from_index(80) == c),
            FmgCategories::GrDialoguesDlc01 => assert(Self::spec_from_index(81) == c),
            FmgCategories::LoadingTitleDlc01 => assert(Self::spec_from_index(82) == c),
            FmgCategories::LoadingTextDlc01 => assert(Self::spec_from_index(83) == c),
            FmgCategories::TutorialTitleDlc01 => assert(Self::spec_from_index(84) == c),
            FmgCategories::TutorialBodyDlc01 => assert(Self::spec_from_index(85) == c),
            FmgCategories::WeaponNameDlc02 => assert(Self::spec_from_index(86) == c),
            FmgCategories::WeaponInfoDlc02 => assert(Self::spec_from_index(87) == c),
            FmgCategories::WeaponCaptionDlc02 => assert(Self::spec_from_index(88) == c),
            FmgCategories::ProtectorNameDlc02 => assert(Self::spec_from_index(89) == c),
            FmgCategories::ProtectorInfoDlc02 => assert(Self::spec_from_index(90) == c),
            FmgCategories::ProtectorCaptionDlc02 => assert(Self::spec_from_index(91) == c),
            FmgCategories::AccessoryNameDlc02 => assert(Self::spec_from_index(92) == c),
            FmgCategories::AccessoryInfoDlc02 => assert(Self::spec_from_index(93) == c),
            FmgCategories::AccessoryCaptionDlc02 => assert(Self::spec_from_index(94) == c),
            FmgCategories::GoodsNameDlc02 => assert(Self::spec_from_index(95) == c),
            FmgCategories::GoodsInfoDlc02 => assert(Self::spec_from_index(96) == c),
            FmgCategories::GoodsCaptionDlc02 => assert(Self::spec_from_index(97) == c),
            FmgCategories::GemNameDlc02 => assert(Self::spec_from_index(98) == c),
            FmgCategories::GemInfoDlc02 => assert(Self::spec_from_index(99) == c),
            FmgCategories::GemCaptionDlc02 => assert(Self::spec_from_index(100) == c),
            FmgCategories::MagicNameDlc02 => assert(Self::spec_from_index(101) == c),
            FmgCategories::MagicInfoDlc02 => assert(Self::spec_from_index(102) == c),
            FmgCategories::MagicCaptionDlc02 => assert(Self::spec_from_index(103) == c),
            FmgCategories::NpcNameDlc02 => assert(Self::spec_from_index(104) == c),
            FmgCategories::PlaceNameDlc02 => assert(Self::spec_from_index(105) == c),
            FmgCategories::GoodsDialogDlc02 => assert(Self::spec_from_index(106) == c),
            FmgCategories::ArtsNameDlc02 => assert(Self::spec_from_index(107) == c),
            FmgCategories::ArtsCaptionDlc02 => assert(Self::spec_from_index(108) == c),
            FmgCategories::WeaponEffectDlc02 => assert(Self::spec_from_index(109) == c),
            FmgCategories::GemEffectDlc02 => assert(Self::spec_from_index(110) == c),
            FmgCategories::GoodsInfo2Dlc02 => assert(Self::spec_from_index(111) == c),
            FmgCategories::TalkMsgDlc02 => assert(Self::spec_from_index(112) == c),
            FmgCategories::BloodMsgDlc02 => assert(Self::spec_from_index(113) == c),
            FmgCategories::MovieSubtitleDlc02 => assert(Self::spec_from_index(114) == c),
            FmgCategories::NetworkMessageDlc02 => assert(Self::spec_from_index(115) == c),
            FmgCategories::ActionButtonTextDlc02 => assert(Self::spec_from_index(116) == c),
            FmgCategories::EventTextForTalkDlc02 => assert(Self::spec_from_index(117) == c),
            FmgCategories::EventTextForMapDlc02 => assert(Self::spec_from_index(118) == c),
            FmgCategories::GrMenuTextDlc02 => assert(Self::spec_from_index(119) == c),
            FmgCategories::GrLineHelpDlc02 => assert(Self::spec_from_index(120) == c),
            FmgCategories::GrKeyGuideDlc02 => assert(Self::spec_from_index(121) == c),
            FmgCategories::GrSystemMessageWin64Dlc02 => assert(Self::spec_from_index(122) == c),
            FmgCategories::GrDialoguesDlc02 => assert(Self::spec_from_index(123) == c),
            FmgCategories::LoadingTitleDlc02 => assert(Self::spec_from_index(124) == c),
            FmgCategories::LoadingTextDlc02 => assert(Self::spec_from_index(125) == c),
            FmgCategories::TutorialTitleDlc02 => assert(Self::spec_from_index(126) == c),
            FmgCategories::TutorialBodyDlc02 => assert(Self::spec_from_index(127) == c),
        }
    }
}

/// The first category, from position `i` on, whose name is `s`.
pub open spec fn category_named_from(s: Seq<char>, i: int) -> Option<FmgCategories>
    decreases CATEGORY_COUNT - i,
{
    if i < 0 || i >= CATEGORY_COUNT {
        None
    } else if FmgCategories::spec_from_index(i).spec_name() == s {
        Some(FmgCategories::spec_from_index(i))
    } else {
        category_named_from(s, i + 1)
    }
}

/// The category whose name is `s`, if there is one.
pub open spec fn category_named(s: Seq<char>) -> Option<FmgCategories> {
    category_named_from(s, 0)
}

/// `category_named` finds a category exactly where some category has that name,
/// and the one it finds has that name.
pub proof fn lemma_category_named(s: Seq<char>)
    ensures
        (category_named(s) is Some) <==> (exists|c: FmgCategories| c.spec_name() == s),
        category_named(s) matches Some(c) ==> c.spec_name() == s,
{
    lemma_category_named_from(s, 0);
    if exists|c: FmgCategories| c.spec_name() == s {
        let c = choose|c: FmgCategories| c.spec_name() == s;
        FmgCategories::lemma_listed(c);
    }
}

proof fn lemma_category_named_from(s: Seq<char>, i: int)
    requires
        0 <= i <= CATEGORY_COUNT,
    ensures
        (category_named_from(s, i) is Some) <==> (exists|k: int|
            i <= k < CATEGORY_COUNT && (#[trigger] FmgCategories::spec_from_index(k)).spec_name()
                == s),
        category_named_from(s, i) matches Some(c) ==> c.spec_name() == s,
    decreases CATEGORY_COUNT - i,
{
    if i < CATEGORY_COUNT {
        lemma_category_named_from(s, i + 1);
    }
}

/// The category named `name`, as the category names parse: the exact,
/// case-sensitive name of a category, or none.
pub fn category_from_name(name: &Vec<char>) -> (r: Option<FmgCategories>)
    ensures
        r == category_named(name@),
{
    let mut i: usize = 0;
    while i < CATEGORY_COUNT
        invariant
            i <= CATEGORY_COUNT,
            category_named(name@) == category_named_from(name@, i as int),
        decreases CATEGORY_COUNT - i,
    {
        let c = FmgCategories::from_index(i);
        let c_name = chars_of(c.name());
        if chars_equal(&c_name, name) {
            return Some(c);
        }
        i += 1;
    }
    None
}

/// Each category is named by the text of its identifier and numbered as
/// the game numbers its message tables.
pub proof fn law_category_names_and_ids()
    ensures
        FmgCategories::TalkMsg.spec_name() == "TalkMsg"@ && FmgCategories::TalkMsg.spec_id() == 1,
        FmgCategories::BloodMsg.spec_name() == "BloodMsg"@ && FmgCategories::BloodMsg.spec_id() == 2,
        FmgCategories::MovieSubtitle.spec_name() == "MovieSubtitle"@ && FmgCategories::MovieSubtitle.spec_id() == 3,
        FmgCategories::GoodsName.spec_name() == "GoodsName"@ && FmgCategories::GoodsName.spec_id() == 10,
        FmgCategories::WeaponName.spec_name() == "WeaponName"@ && FmgCategories::WeaponName.spec_id() == 11,
        FmgCategories::ProtectorName.spec_name() == "ProtectorName"@ && FmgCategories::ProtectorName.spec_id() == 12,
        FmgCategories::AccessoryName.spec_name() == "AccessoryName"@ && FmgCategories::AccessoryName.spec_id() == 13,
        FmgCategories::MagicName.spec_name() == "MagicName"@ && FmgCategories::MagicName.spec_id() == 14,
        FmgCategories::NpcName.spec_name() == "NpcName"@ && FmgCategories::NpcName.spec_id() == 18,
        FmgCategories::PlaceName.spec_name() == "PlaceName"@ && FmgCategories::PlaceName.spec_id() == 19,
        FmgCategories::GoodsInfo.spec_name() == "GoodsInfo"@ && FmgCategories::GoodsInfo.spec_id() == 20,
        FmgCategories::WeaponInfo.spec_name() == "WeaponInfo"@ && FmgCategories::WeaponInfo.spec_id() == 21,
        FmgCategories::ProtectorInfo.spec_name() == "ProtectorInfo"@ && FmgCategories::ProtectorInfo.spec_id() == 22,
        FmgCategories::AccessoryInfo.spec_name() == "AccessoryInfo"@ && FmgCategories::AccessoryInfo.spec_id() == 23,
        FmgCategories::GoodsCaption.spec_name() == "GoodsCaption"@ && FmgCategories::GoodsCaption.spec_id() == 24,
        FmgCategories::WeaponCaption.spec_name() == "WeaponCaption"@ && FmgCategories::WeaponCaption.spec_id() == 25,
        FmgCategories::ProtectorCaption.spec_name() == "ProtectorCaption"@ && FmgCategories::ProtectorCaption.spec_id() == 26,
        FmgCategories::AccessoryCaption.spec_name() == "AccessoryCaption"@ && FmgCategories::AccessoryCaption.spec_id() == 27,
        FmgCategories::MagicInfo.spec_name() == "MagicInfo"@ && FmgCategories::MagicInfo.spec_id() == 28,
        FmgCategories::MagicCaption.spec_name() == "MagicCaption"@ && FmgCategories::MagicCaption.spec_id() == 29,
        FmgCategories::NetworkMessage.spec_name() == "NetworkMessage"@ && FmgCategories::NetworkMessage.spec_id() == 31,
        FmgCategories::ActionButtonText.spec_name() == "ActionButtonText"@ && FmgCategories::ActionButtonText.spec_id() == 32,
        FmgCategories::EventTextForTalk.spec_name() == "EventTextForTalk"@ && FmgCategories::EventTextForTalk.spec_id() == 33,
        FmgCategories::EventTextForMap.spec_name() == "EventTextForMap"@ && FmgCategories::EventTextForMap.spec_id() == 34,
        FmgCategories::GemName.spec_name() == "GemName"@ && FmgCategories::GemName.spec_id() == 35,
        FmgCategories::GemInfo.spec_name() == "GemInfo"@ && FmgCategories::GemInfo.spec_id() == 36,
        FmgCategories::GemCaption.spec_name() == "GemCaption"@ && FmgCategories::GemCaption.spec_id() == 37,
        FmgCategories::GoodsDialog.spec_name() == "GoodsDialog"@ && FmgCategories::GoodsDialog.spec_id() == 41,
        FmgCategories::ArtsName.spec_name() == "ArtsName"@ && FmgCategories::ArtsName.spec_id() == 42,
        FmgCategories::ArtsCaption.spec_name() == "ArtsCaption"@ && FmgCategories::ArtsCaption.spec_id() == 43,
        FmgCategories::WeaponEffect.spec_name() == "WeaponEffect"@ && FmgCategories::WeaponEffect.spec_id() == 44,
        FmgCategories::GemEffect.spec_name() == "GemEffect"@ && FmgCategories::GemEffect.spec_id() == 45,
        FmgCategories::GoodsInfo2.spec_name() == "GoodsInfo2"@ && FmgCategories::GoodsInfo2.spec_id() == 46,
        FmgCategories::GrMenuText.spec_name() == "GrMenuText"@ && FmgCategories::GrMenuText.spec_id() == 200,
        FmgCategories::GrLineHelp.spec_name() == "GrLineHelp"@ && FmgCategories::GrLineHelp.spec_id() == 201,
        FmgCategories::GrKeyGuide.spec_name() == "GrKeyGuide"@ && FmgCategories::GrKeyGuide.spec_id() == 202,
        FmgCategories::GrSystemMessageWin64.spec_name() == "GrSystemMessageWin64"@ && FmgCategories::GrSystemMessageWin64.spec_id() == 203,
        FmgCategories::GrDialogues.spec_name() == "GrDialogues"@ && FmgCategories::GrDialogues.spec_id() == 204,
        FmgCategories::LoadingTitle.spec_name() == "LoadingTitle"@ && FmgCategories::LoadingTitle.spec_id() == 205,
        FmgCategories::LoadingText.spec_name() == "LoadingText"@ && FmgCategories::LoadingText.spec_id() == 206,
        FmgCategories::TutorialTitle.spec_name() == "TutorialTitle"@ && FmgCategories::TutorialTitle.spec_id() == 207,
        FmgCategories::TutorialBody.spec_name() == "TutorialBody"@ && FmgCategories::TutorialBody.spec_id() == 208,
        FmgCategories::TextEmbedImageNameWin64.spec_name() == "TextEmbedImageNameWin64"@ && FmgCategories::TextEmbedImageNameWin64.spec_id() == 209,
        FmgCategories::ToSWin64.spec_name() == "ToSWin64"@ && FmgCategories::ToSWin64.spec_id() == 210,
        FmgCategories::WeaponNameDlc01.spec_name() == "WeaponNameDlc01"@ && FmgCategories::WeaponNameDlc01.spec_id() == 310,
        FmgCategories::WeaponInfoDlc01.spec_name() == "WeaponInfoDlc01"@ && FmgCategories::WeaponInfoDlc01.spec_id() == 311,
        FmgCategories::WeaponCaptionDlc01.spec_name() == "WeaponCaptionDlc01"@ && FmgCategories::WeaponCaptionDlc01.spec_id() == 312,
        FmgCategories::ProtectorNameDlc01.spec_name() == "ProtectorNameDlc01"@ && FmgCategories::ProtectorNameDlc01.spec_id() == 313,
        FmgCategories::ProtectorInfoDlc01.spec_name() == "ProtectorInfoDlc01"@ && FmgCategories::ProtectorInfoDlc01.spec_id() == 314,
        FmgCategories::ProtectorCaptionDlc01.spec_name() == "ProtectorCaptionDlc01"@ && FmgCategories::ProtectorCaptionDlc01.spec_id() == 315,
        FmgCategories::AccessoryNameDlc01.spec_name() == "AccessoryNameDlc01"@ && FmgCategories::AccessoryNameDlc01.spec_id() == 316,
        FmgCategories::AccessoryInfoDlc01.spec_name() == "AccessoryInfoDlc01"@ && FmgCategories::AccessoryInfoDlc01.spec_id() == 317,
        FmgCategories::AccessoryCaptionDlc01.spec_name() == "AccessoryCaptionDlc01"@ && FmgCategories::AccessoryCaptionDlc01.spec_id() == 318,
        FmgCategories::GoodsNameDlc01.spec_name() == "GoodsNameDlc01"@ && FmgCategories::GoodsNameDlc01.spec_id() == 319,
        FmgCategories::GoodsInfoDlc01.spec_name() == "GoodsInfoDlc01"@ && FmgCategories::GoodsInfoDlc01.spec_id() == 320,
        FmgCategories::GoodsCaptionDlc01.spec_name() == "GoodsCaptionDlc01"@ && FmgCategories::GoodsCaptionDlc01.spec_id() == 321,
        FmgCategories::GemNameDlc01.spec_name() == "GemNameDlc01"@ && FmgCategories::GemNameDlc01.spec_id() == 322,
        FmgCategories::GemInfoDlc01.spec_name() == "GemInfoDlc01"@ && FmgCategories::GemInfoDlc01.spec_id() == 323,
        FmgCategories::GemCaptionDlc01.spec_name() == "GemCaptionDlc01"@ && FmgCategories::GemCaptionDlc01.spec_id() == 324,
        FmgCategories::MagicNameDlc01.spec_name() == "MagicNameDlc01"@ && FmgCategories::MagicNameDlc01.spec_id() == 325,
        FmgCategories::MagicInfoDlc01.spec_name() == "MagicInfoDlc01"@ && FmgCategories::MagicInfoDlc01.spec_id() == 326,
        FmgCategories::MagicCaptionDlc01.spec_name() == "MagicCaptionDlc01"@ && FmgCategories::MagicCaptionDlc01.spec_id() == 327,
        FmgCategories::NpcNameDlc01.spec_name() == "NpcNameDlc01"@ && FmgCategories::NpcNameDlc01.spec_id() == 328,
        FmgCategories::PlaceNameDlc01.spec_name() == "PlaceNameDlc01"@ && FmgCategories::PlaceNameDlc01.spec_id() == 329,
        FmgCategories::GoodsDialogDlc01.spec_name() == "GoodsDialogDlc01"@ && FmgCategories::GoodsDialogDlc01.spec_id() == 330,
        FmgCategories::ArtsNameDlc01.spec_name() == "ArtsNameDlc01"@ && FmgCategories::ArtsNameDlc01.spec_id() == 331,
        FmgCategories::ArtsCaptionDlc01.spec_name() == "ArtsCaptionDlc01"@ && FmgCategories::ArtsCaptionDlc01.spec_id() == 332,
        FmgCategories::WeaponEffectDlc01.spec_name() == "WeaponEffectDlc01"@ && FmgCategories::WeaponEffectDlc01.spec_id() == 333,
        FmgCategories::GemEffectDlc01.spec_name() == "GemEffectDlc01"@ && FmgCategories::GemEffectDlc01.spec_id() == 334,
        FmgCategories::GoodsInfo2Dlc01.spec_name() == "GoodsInfo2Dlc01"@ && FmgCategories::GoodsInfo2Dlc01.spec_id() == 335,
        FmgCategories::TalkMsgDlc01.spec_name() == "TalkMsgDlc01"@ && FmgCategories::TalkMsgDlc01.spec_id() == 360,
        FmgCategories::BloodMsgDlc01.spec_name() == "BloodMsgDlc01"@ && FmgCategories::BloodMsgDlc01.spec_id() == 361,
        FmgCategories::MovieSubtitleDlc01.spec_name() == "MovieSubtitleDlc01"@ && FmgCategories::MovieSubtitleDlc01.spec_id() == 362,
        FmgCategories::NetworkMessageDlc01.spec_name() == "NetworkMessageDlc01"@ && FmgCategories::NetworkMessageDlc01.spec_id() == 364,
        FmgCategories::ActionButtonTextDlc01.spec_name() == "ActionButtonTextDlc01"@ && FmgCategories::ActionButtonTextDlc01.spec_id() == 365,
        FmgCategories::EventTextForTalkDlc01.spec_name() == "EventTextForTalkDlc01"@ && FmgCategories::EventTextForTalkDlc01.spec_id() == 366,
        FmgCategories::EventTextForMapDlc01.spec_name() == "EventTextForMapDlc01"@ && FmgCategories::EventTextForMapDlc01.spec_id() == 367,
        FmgCategories::GrMenuTextDlc01.spec_name() == "GrMenuTextDlc01"@ && FmgCategories::GrMenuTextDlc01.spec_id() == 368,
        FmgCategories::GrLineHelpDlc01.spec_name() == "GrLineHelpDlc01"@ && FmgCategories::GrLineHelpDlc01.spec_id() == 369,
        FmgCategories::GrKeyGuideDlc01.spec_name() == "GrKeyGuideDlc01"@ && FmgCategories::GrKeyGuideDlc01.spec_id() == 370,
        FmgCategories::GrSystemMessageWin64Dlc01.spec_name() == "GrSystemMessageWin64Dlc01"@ && FmgCategories::GrSystemMessageWin64Dlc01.spec_id() == 371,
        FmgCategories::GrDialoguesDlc01.spec_name() == "GrDialoguesDlc01"@ && FmgCategories::GrDialoguesDlc01.spec_id() == 372,
        FmgCategories::LoadingTitleDlc01.spec_name() == "LoadingTitleDlc01"@ && FmgCategories::LoadingTitleDlc01.spec_id() == 373,
        FmgCategories::LoadingTextDlc01.spec_name() == "LoadingTextDlc01"@ && FmgCategories::LoadingTextDlc01.spec_id() == 374,
        FmgCategories::TutorialTitleDlc01.spec_name() == "TutorialTitleDlc01"@ && FmgCategories::TutorialTitleDlc01.spec_id() == 375,
        FmgCategories::TutorialBodyDlc01.spec_name() == "TutorialBodyDlc01"@ && FmgCategories::TutorialBodyDlc01.spec_id() == 376,
        FmgCategories::WeaponNameDlc02.spec_name() == "WeaponNameDlc02"@ && FmgCategories::WeaponNameDlc02.spec_id() == 410,
        FmgCategories::WeaponInfoDlc02.spec_name() == "WeaponInfoDlc02"@ && FmgCategories::WeaponInfoDlc02.spec_id() == 411,
        FmgCategories::WeaponCaptionDlc02.spec_name() == "WeaponCaptionDlc02"@ && FmgCategories::WeaponCaptionDlc02.spec_id() == 412,
        FmgCategories::ProtectorNameDlc02.spec_name() == "ProtectorNameDlc02"@ && FmgCategories::ProtectorNameDlc02.spec_id() == 413,
        FmgCategories::ProtectorInfoDlc02.spec_name() == "ProtectorInfoDlc02"@ && FmgCategories::ProtectorInfoDlc02.spec_id() == 414,
        FmgCategories::ProtectorCaptionDlc02.spec_name() == "ProtectorCaptionDlc02"@ && FmgCategories::ProtectorCaptionDlc02.spec_id() == 415,
        FmgCategories::AccessoryNameDlc02.spec_name() == "AccessoryNameDlc02"@ && FmgCategories::AccessoryNameDlc02.spec_id() == 416,
        FmgCategories::AccessoryInfoDlc02.spec_name() == "AccessoryInfoDlc02"@ && FmgCategories::AccessoryInfoDlc02.spec_id() == 417,
        FmgCategories::AccessoryCaptionDlc02.spec_name() == "AccessoryCaptionDlc02"@ && FmgCategories::AccessoryCaptionDlc02.spec_id() == 418,
        FmgCategories::GoodsNameDlc02.spec_name() == "GoodsNameDlc02"@ && FmgCategories::GoodsNameDlc02.spec_id() == 419,
        FmgCategories::GoodsInfoDlc02.spec_name() == "GoodsInfoDlc02"@ && FmgCategories::GoodsInfoDlc02.spec_id() == 420,
        FmgCategories::GoodsCaptionDlc02.spec_name() == "GoodsCaptionDlc02"@ && FmgCategories::GoodsCaptionDlc02.spec_id() == 421,
        FmgCategories::GemNameDlc02.spec_name() == "GemNameDlc02"@ && FmgCategories::GemNameDlc02.spec_id() == 422,
        FmgCategories::GemInfoDlc02.spec_name() == "GemInfoDlc02"@ && FmgCategories::GemInfoDlc02.spec_id() == 423,
        FmgCategories::GemCaptionDlc02.spec_name() == "GemCaptionDlc02"@ && FmgCategories::GemCaptionDlc02.spec_id() == 424,
        FmgCategories::MagicNameDlc02.spec_name() == "MagicNameDlc02"@ && FmgCategories::MagicNameDlc02.spec_id() == 425,
        FmgCategories::MagicInfoDlc02.spec_name() == "MagicInfoDlc02"@ && FmgCategories::MagicInfoDlc02.spec_id() == 426,
        FmgCategories::MagicCaptionDlc02.spec_name() == "MagicCaptionDlc02"@ && FmgCategories::MagicCaptionDlc02.spec_id() == 427,
        FmgCategories::NpcNameDlc02.spec_name() == "NpcNameDlc02"@ && FmgCategories::NpcNameDlc02.spec_id() == 428,
        FmgCategories::PlaceNameDlc02.spec_name() == "PlaceNameDlc02"@ && FmgCategories::PlaceNameDlc02.spec_id() == 429,
        FmgCategories::GoodsDialogDlc02.spec_name() == "GoodsDialogDlc02"@ && FmgCategories::GoodsDialogDlc02.spec_id() == 430,
        FmgCategories::ArtsNameDlc02.spec_name() == "ArtsNameDlc02"@ && FmgCategories::ArtsNameDlc02.spec_id() == 431,
        FmgCategories::ArtsCaptionDlc02.spec_name() == "ArtsCaptionDlc02"@ && FmgCategories::ArtsCaptionDlc02.spec_id() == 432,
        FmgCategories::WeaponEffectDlc02.spec_name() == "WeaponEffectDlc02"@ && FmgCategories::WeaponEffectDlc02.spec_id() == 433,
        FmgCategories::GemEffectDlc02.spec_name() == "GemEffectDlc02"@ && FmgCategories::GemEffectDlc02.spec_id() == 434,
        FmgCategories::GoodsInfo2Dlc02.spec_name() == "GoodsInfo2Dlc02"@ && FmgCategories::GoodsInfo2Dlc02.spec_id() == 435,
        FmgCategories::TalkMsgDlc02.spec_name() == "TalkMsgDlc02"@ && FmgCategories::TalkMsgDlc02.spec_id() == 460,
        FmgCategories::BloodMsgDlc02.spec_name() == "BloodMsgDlc02"@ && FmgCategories::BloodMsgDlc02.spec_id() == 461,
        FmgCategories::MovieSubtitleDlc02.spec_name() == "MovieSubtitleDlc02"@ && FmgCategories::MovieSubtitleDlc02.spec_id() == 462,
        FmgCategories::NetworkMessageDlc02.spec_name() == "NetworkMessageDlc02"@ && FmgCategories::NetworkMessageDlc02.spec_id() == 464,
        FmgCategories::ActionButtonTextDlc02.spec_name() == "ActionButtonTextDlc02"@ && FmgCategories::ActionButtonTextDlc02.spec_id() == 465,
        FmgCategories::EventTextForTalkDlc02.spec_name() == "EventTextForTalkDlc02"@ && FmgCategories::EventTextForTalkDlc02.spec_id() == 466,
        FmgCategories::EventTextForMapDlc02.spec_name() == "EventTextForMapDlc02"@ && FmgCategories::EventTextForMapDlc02.spec_id() == 467,
        FmgCategories::GrMenuTextDlc02.spec_name() == "GrMenuTextDlc02"@ && FmgCategories::GrMenuTextDlc02.spec_id() == 468,
        FmgCategories::GrLineHelpDlc02.spec_name() == "GrLineHelpDlc02"@ && FmgCategories::GrLineHelpDlc02.spec_id() == 469,
        FmgCategories::GrKeyGuideDlc02.spec_name() == "GrKeyGuideDlc02"@ && FmgCategories::GrKeyGuideDlc02.spec_id() == 470,
        FmgCategories::GrSystemMessageWin64Dlc02.spec_name() == "GrSystemMessageWin64Dlc02"@ && FmgCategories::GrSystemMessageWin64Dlc02.spec_id() == 471,
        FmgCategories::GrDialoguesDlc02.spec_name() == "GrDialoguesDlc02"@ && FmgCategories::GrDialoguesDlc02.spec_id() == 472,
        FmgCategories::LoadingTitleDlc02.spec_name() == "LoadingTitleDlc02"@ && FmgCategories::LoadingTitleDlc02.spec_id() == 473,
        FmgCategories::LoadingTextDlc02.spec_name() == "LoadingTextDlc02"@ && FmgCategories::LoadingTextDlc02.spec_id() == 474,
        FmgCategories::TutorialTitleDlc02.spec_name() == "TutorialTitleDlc02"@ && FmgCategories::TutorialTitleDlc02.spec_id() == 475,
        FmgCategories::TutorialBodyDlc02.spec_name() == "TutorialBodyDlc02"@ && FmgCategories::TutorialBodyDlc02.spec_id() == 476,
{
}

/// `c`, if `s` is its name.
pub open spec fn named(s: Seq<char>, c: FmgCategories) -> Option<FmgCategories> {
    if s == c.spec_name() {
        Some(c)
    } else {
        None
    }
}

/// The category with the name `s`: the names are told apart by their
/// length and then by the characters at a few positions, and the one name
/// left is compared whole.
pub open spec fn category_by_name(s: Seq<char>) -> Option<FmgCategories> {
    if s.len() == 7 {
        if s[0] == 'T' {
            named(s, FmgCategories::TalkMsg)
        } else if s[0] == 'N' {
            named(s, FmgCategories::NpcName)
        } else if s[0] == 'G' {
            if s[3] == 'N' {
                named(s, FmgCategories::GemName)
            } else if s[3] == 'I' {
                named(s, FmgCategories::GemInfo)
            } else {
                None
            }
        } else {
            None
        }
    } else if s.len() == 8 {
        if s[0] == 'B' {
            named(s, FmgCategories::BloodMsg)
        } else if s[0] == 'A' {
            named(s, FmgCategories::ArtsName)
        } else if s[0] == 'T' {
            named(s, FmgCategories::ToSWin64)
        } else {
            None
        }
    } else if s.len() == 9 {
        if s[1] == 'o' {
            if s[5] == 'N' {
                named(s, FmgCategories::GoodsName)
            } else if s[5] == 'I' {
                named(s, FmgCategories::GoodsInfo)
            } else {
                None
            }
        } else if s[1] == 'a' {
            if s[5] == 'N' {
                named(s, FmgCategories::MagicName)
            } else if s[5] == 'I' {
                named(s, FmgCategories::MagicInfo)
            } else {
                None
            }
        } else if s[1] == 'l' {
            named(s, FmgCategories::PlaceName)
        } else if s[1] == 'e' {
            named(s, FmgCategories::GemEffect)
        } else {
            None
        }
    } else if s.len() == 10 {
        if s[6] == 'N' {
            named(s, FmgCategories::WeaponName)
        } else if s[6] == 'I' {
            named(s, FmgCategories::WeaponInfo)
        } else if s[6] == 't' {
            named(s, FmgCategories::GemCaption)
        } else if s[6] == 'n' {
            named(s, FmgCategories::GoodsInfo2)
        } else if s[6] == 'T' {
            named(s, FmgCategories::GrMenuText)
        } else if s[6] == 'H' {
            named(s, FmgCategories::GrLineHelp)
        } else if s[6] == 'u' {
            named(s, FmgCategories::GrKeyGuide)
        } else {
            None
        }
    } else if s.len() == 11 {
        if s[2] == 'o' {
            named(s, FmgCategories::GoodsDialog)
        } else if s[2] == 't' {
            named(s, FmgCategories::ArtsCaption)
        } else if s[2] == 'D' {
            named(s, FmgCategories::GrDialogues)
        } else if s[2] == 'a' {
            named(s, FmgCategories::LoadingText)
        } else {
            None
        }
    } else if s.len() == 12 {
        if s[4] == 's' {
            named(s, FmgCategories::GoodsCaption)
        } else if s[4] == 'c' {
            named(s, FmgCategories::MagicCaption)
        } else if s[4] == 'o' {
            named(s, FmgCategories::WeaponEffect)
        } else if s[4] == 'i' {
            named(s, FmgCategories::LoadingTitle)
        } else if s[4] == 'r' {
            named(s, FmgCategories::TutorialBody)
        } else if s[4] == 'a' {
            if s[0] == 'G' {
                if s[11] == '1' {
                    named(s, FmgCategories::GemNameDlc01)
                } else if s[11] == '2' {
                    named(s, FmgCategories::GemNameDlc02)
                } else {
                    None
                }
            } else if s[0] == 'N' {
                if s[11] == '1' {
                    named(s, FmgCategories::NpcNameDlc01)
                } else if s[11] == '2' {
                    named(s, FmgCategories::NpcNameDlc02)
                } else {
                    None
                }
            } else {
                None
            }
        } else if s[4] == 'n' {
            if s[11] == '1' {
                named(s, FmgCategories::GemInfoDlc01)
            } else if s[11] == '2' {
                named(s, FmgCategories::GemInfoDlc02)
            } else {
                None
            }
        } else if s[4] == 'M' {
            if s[11] == '1' {
                named(s, FmgCategories::TalkMsgDlc01)
            } else if s[11] == '2' {
                named(s, FmgCategories::TalkMsgDlc02)
            } else {
                None
            }
        } else {
            None
        }
    } else if s.len() == 13 {
        if s[5] == 'S' {
            named(s, FmgCategories::MovieSubtitle)
        } else if s[5] == 'c' {
            if s[9] == 'N' {
                named(s, FmgCategories::ProtectorName)
            } else if s[9] == 'I' {
                named(s, FmgCategories::ProtectorInfo)
            } else {
                None
            }
        } else if s[5] == 's' {
            if s[9] == 'N' {
                named(s, FmgCategories::AccessoryName)
            } else if s[9] == 'I' {
                named(s, FmgCategories::AccessoryInfo)
            } else {
                None
            }
        } else if s[5] == 'n' {
            named(s, FmgCategories::WeaponCaption)
        } else if s[5] == 'i' {
            named(s, FmgCategories::TutorialTitle)
        } else if s[5] == 'a' {
            if s[12] == '1' {
                named(s, FmgCategories::ArtsNameDlc01)
            } else if s[12] == '2' {
                named(s, FmgCategories::ArtsNameDlc02)
            } else {
                None
            }
        } else if s[5] == 'M' {
            if s[12] == '1' {
                named(s, FmgCategories::BloodMsgDlc01)
            } else if s[12] == '2' {
                named(s, FmgCategories::BloodMsgDlc02)
            } else {
                None
            }
        } else {
            None
        }
    } else if s.len() == 14 {
        if s[2] == 't' {
            named(s, FmgCategories::NetworkMessage)
        } else if s[2] == 'o' {
            if s[5] == 'N' {
                if s[13] == '1' {
                    named(s, FmgCategories::GoodsNameDlc01)
                } else if s[13] == '2' {
                    named(s, FmgCategories::GoodsNameDlc02)
                } else {
                    None
                }
            } else if s[5] == 'I' {
                if s[13] == '1' {
                    named(s, FmgCategories::GoodsInfoDlc01)
                } else if s[13] == '2' {
                    named(s, FmgCategories::GoodsInfoDlc02)
                } else {
                    None
                }
            } else {
                None
            }
        } else if s[2] == 'g' {
            if s[5] == 'N' {
                if s[13] == '1' {
                    named(s, FmgCategories::MagicNameDlc01)
                } else if s[13] == '2' {
                    named(s, FmgCategories::MagicNameDlc02)
                } else {
                    None
                }
            } else if s[5] == 'I' {
                if s[13] == '1' {
                    named(s, FmgCategories::MagicInfoDlc01)
                } else if s[13] == '2' {
                    named(s, FmgCategories::MagicInfoDlc02)
                } else {
                    None
                }
            } else {
                None
            }
        } else if s[2] == 'a' {
            if s[13] == '1' {
                named(s, FmgCategories::PlaceNameDlc01)
            } else if s[13] == '2' {
                named(s, FmgCategories::PlaceNameDlc02)
            } else {
                None
            }
        } else if s[2] == 'm' {
            if s[13] == '1' {
                named(s, FmgCategories::GemEffectDlc01)
            } else if s[13] == '2' {
                named(s, FmgCategories::GemEffectDlc02)
            } else {
                None
            }
        } else {
            None
        }
    } else if s.len() == 15 {
        if s[6] == 'e' {
            named(s, FmgCategories::EventTextForMap)
        } else if s[6] == 'N' {
            if s[14] == '1' {
                named(s, FmgCategories::WeaponNameDlc01)
            } else if s[14] == '2' {
                named(s, FmgCategories::WeaponNameDlc02)
            } else {
                None
            }
        } else if s[6] == 'I' {
            if s[14] == '1' {
                named(s, FmgCategories::WeaponInfoDlc01)
            } else if s[14] == '2' {
                named(s, FmgCategories::WeaponInfoDlc02)
            } else {
                None
            }
        } else if s[6] == 't' {
            if s[14] == '1' {
                named(s, FmgCategories::GemCaptionDlc01)
            } else if s[14] == '2' {
                named(s, FmgCategories::GemCaptionDlc02)
            } else {
                None
            }
        } else if s[6] == 'n' {
            if s[14] == '1' {
                named(s, FmgCategories::GoodsInfo2Dlc01)
            } else if s[14] == '2' {
                named(s, FmgCategories::GoodsInfo2Dlc02)
            } else {
                None
            }
        } else if s[6] == 'T' {
            if s[14] == '1' {
                named(s, FmgCategories::GrMenuTextDlc01)
            } else if s[14] == '2' {
                named(s, FmgCategories::GrMenuTextDlc02)
            } else {
                None
            }
        } else if s[6] == 'H' {
            if s[14] == '1' {
                named(s, FmgCategories::GrLineHelpDlc01)
            } else if s[14] == '2' {
                named(s, FmgCategories::GrLineHelpDlc02)
            } else {
                None
            }
        } else if s[6] == 'u' {
            if s[14] == '1' {
                named(s, FmgCategories::GrKeyGuideDlc01)
            } else if s[14] == '2' {
                named(s, FmgCategories::GrKeyGuideDlc02)
            } else {
                None
            }
        } else {
            None
        }
    } else if s.len() == 16 {
        if s[7] == 'o' {
            named(s, FmgCategories::ProtectorCaption)
        } else if s[7] == 'r' {
            named(s, FmgCategories::AccessoryCaption)
        } else if s[7] == 'u' {
            named(s, FmgCategories::ActionButtonText)
        } else if s[7] == 'x' {
            named(s, FmgCategories::EventTextForTalk)
        } else if s[7] == 'a' {
            if s[15] == '1' {
                named(s, FmgCategories::GoodsDialogDlc01)
            } else if s[15] == '2' {
                named(s, FmgCategories::GoodsDialogDlc02)
            } else {
                None
            }
        } else if s[7] == 't' {
            if s[15] == '1' {
                named(s, FmgCategories::ArtsCaptionDlc01)
            } else if s[15] == '2' {
                named(s, FmgCategories::ArtsCaptionDlc02)
            } else {
                None
            }
        } else if s[7] == 'g' {
            if s[15] == '1' {
                named(s, FmgCategories::GrDialoguesDlc01)
            } else if s[15] == '2' {
                named(s, FmgCategories::GrDialoguesDlc02)
            } else {
                None
            }
        } else if s[7] == 'T' {
            if s[15] == '1' {
                named(s, FmgCategories::LoadingTextDlc01)
            } else if s[15] == '2' {
                named(s, FmgCategories::LoadingTextDlc02)
            } else {
                None
            }
        } else {
            None
        }
    } else if s.len() == 17 {
        if s[0] == 'G' {
            if s[16] == '1' {
                named(s, FmgCategories::GoodsCaptionDlc01)
            } else if s[16] == '2' {
                named(s, FmgCategories::GoodsCaptionDlc02)
            } else {
                None
            }
        } else if s[0] == 'M' {
            if s[16] == '1' {
                named(s, FmgCategories::MagicCaptionDlc01)
            } else if s[16] == '2' {
                named(s, FmgCategories::MagicCaptionDlc02)
            } else {
                None
            }
        } else if s[0] == 'W' {
            if s[16] == '1' {
                named(s, FmgCategories::WeaponEffectDlc01)
            } else if s[16] == '2' {
                named(s, FmgCategories::WeaponEffectDlc02)
            } else {
                None
            }
        } else if s[0] == 'L' {
            if s[16] == '1' {
                named(s, FmgCategories::LoadingTitleDlc01)
            } else if s[16] == '2' {
                named(s, FmgCategories::LoadingTitleDlc02)
            } else {
                None
            }
        } else if s[0] == 'T' {
            if s[16] == '1' {
                named(s, FmgCategories::TutorialBodyDlc01)
            } else if s[16] == '2' {
                named(s, FmgCategories::TutorialBodyDlc02)
            } else {
                None
            }
        } else {
            None
        }
    } else if s.len() == 18 {
        if s[0] == 'W' {
            if s[17] == '1' {
                named(s, FmgCategories::WeaponCaptionDlc01)
            } else if s[17] == '2' {
                named(s, FmgCategories::WeaponCaptionDlc02)
            } else {
                None
            }
        } else if s[0] == 'P' {
            if s[9] == 'N' {
                if s[17] == '1' {
                    named(s, FmgCategories::ProtectorNameDlc01)
                } else if s[17] == '2' {
                    named(s, FmgCategories::ProtectorNameDlc02)
                } else {
                    None
                }
            } else if s[9] == 'I' {
                if s[17] == '1' {
                    named(s, FmgCategories::ProtectorInfoDlc01)
                } else if s[17] == '2' {
                    named(s, FmgCategories::ProtectorInfoDlc02)
                } else {
                    None
                }
            } else {
                None
            }
        } else if s[0] == 'A' {
            if s[9] == 'N' {
                if s[17] == '1' {
                    named(s, FmgCategories::AccessoryNameDlc01)
                } else if s[17] == '2' {
                    named(s, FmgCategories::AccessoryNameDlc02)
                } else {
                    None
                }
            } else if s[9] == 'I' {
                if s[17] == '1' {
                    named(s, FmgCategories::AccessoryInfoDlc01)
                } else if s[17] == '2' {
                    named(s, FmgCategories::AccessoryInfoDlc02)
                } else {
                    None
                }
            } else {
                None
            }
        } else if s[0] == 'M' {
            if s[17] == '1' {
                named(s, FmgCategories::MovieSubtitleDlc01)
            } else if s[17] == '2' {
                named(s, FmgCategories::MovieSubtitleDlc02)
            } else {
                None
            }
        } else if s[0] == 'T' {
            if s[17] == '1' {
                named(s, FmgCategories::TutorialTitleDlc01)
            } else if s[17] == '2' {
                named(s, FmgCategories::TutorialTitleDlc02)
            } else {
                None
            }
        } else {
            None
        }
    } else if s.len() == 19 {
        if s[18] == '1' {
            named(s, FmgCategories::NetworkMessageDlc01)
        } else if s[18] == '2' {
            named(s, FmgCategories::NetworkMessageDlc02)
        } else {
            None
        }
    } else if s.len() == 20 {
        if s[19] == '4' {
            named(s, FmgCategories::GrSystemMessageWin64)
        } else if s[19] == '1' {
            named(s, FmgCategories::EventTextForMapDlc01)
        } else if s[19] == '2' {
            named(s, FmgCategories::EventTextForMapDlc02)
        } else {
            None
        }
    } else if s.len() == 21 {
        if s[2] == 'o' {
            if s[20] == '1' {
                named(s, FmgCategories::ProtectorCaptionDlc01)
            } else if s[20] == '2' {
                named(s, FmgCategories::ProtectorCaptionDlc02)
            } else {
                None
            }
        } else if s[2] == 'c' {
            if s[20] == '1' {
                named(s, FmgCategories::AccessoryCaptionDlc01)
            } else if s[20] == '2' {
                named(s, FmgCategories::AccessoryCaptionDlc02)
            } else {
                None
            }
        } else if s[2] == 't' {
            if s[20] == '1' {
                named(s, FmgCategories::ActionButtonTextDlc01)
            } else if s[20] == '2' {
                named(s, FmgCategories::ActionButtonTextDlc02)
            } else {
                None
            }
        } else if s[2] == 'e' {
            if s[20] == '1' {
                named(s, FmgCategories::EventTextForTalkDlc01)
            } else if s[20] == '2' {
                named(s, FmgCategories::EventTextForTalkDlc02)
            } else {
                None
            }
        } else {
            None
        }
    } else if s.len() == 23 {
        named(s, FmgCategories::TextEmbedImageNameWin64)
    } else if s.len() == 25 {
        if s[24] == '1' {
            named(s, FmgCategories::GrSystemMessageWin64Dlc01)
        } else if s[24] == '2' {
            named(s, FmgCategories::GrSystemMessageWin64Dlc02)
        } else {
            None
        }
    } else {
        None
    }
}

/// Each name of length 7 leads back to its category.
proof fn lemma_names_of_length_7()
    ensures
        category_by_name(FmgCategories::TalkMsg.spec_name()) == Some(FmgCategories::TalkMsg),
        category_by_name(FmgCategories::NpcName.spec_name()) == Some(FmgCategories::NpcName),
        category_by_name(FmgCategories::GemName.spec_name()) == Some(FmgCategories::GemName),
        category_by_name(FmgCategories::GemInfo.spec_name()) == Some(FmgCategories::GemInfo),
{
    reveal_strlit("TalkMsg");
    reveal_strlit("NpcName");
    reveal_strlit("GemName");
    reveal_strlit("GemInfo");
}

/// Each name of length 8 leads back to its category.
proof fn lemma_names_of_length_8()
    ensures
        category_by_name(FmgCategories::BloodMsg.spec_name()) == Some(FmgCategories::BloodMsg),
        category_by_name(FmgCategories::ArtsName.spec_name()) == Some(FmgCategories::ArtsName),
        category_by_name(FmgCategories::ToSWin64.spec_name()) == Some(FmgCategories::ToSWin64),
{
    reveal_strlit("BloodMsg");
    reveal_strlit("ArtsName");
    reveal_strlit("ToSWin64");
}

/// Each name of length 9 leads back to its category.
proof fn lemma_names_of_length_9()
    ensures
        category_by_name(FmgCategories::GoodsName.spec_name()) == Some(FmgCategories::GoodsName),
        category_by_name(FmgCategories::MagicName.spec_name()) == Some(FmgCategories::MagicName),
        category_by_name(FmgCategories::PlaceName.spec_name()) == Some(FmgCategories::PlaceName),
        category_by_name(FmgCategories::GoodsInfo.spec_name()) == Some(FmgCategories::GoodsInfo),
        category_by_name(FmgCategories::MagicInfo.spec_name()) == Some(FmgCategories::MagicInfo),
        category_by_name(FmgCategories::GemEffect.spec_name()) == Some(FmgCategories::GemEffect),
{
    reveal_strlit("GoodsName");
    reveal_strlit("MagicName");
    reveal_strlit("PlaceName");
    reveal_strlit("GoodsInfo");
    reveal_strlit("MagicInfo");
    reveal_strlit("GemEffect");
}

/// Each name of length 10 leads back to its category.
proof fn lemma_names_of_length_10()
    ensures
        category_by_name(FmgCategories::WeaponName.spec_name()) == Some(FmgCategories::WeaponName),
        category_by_name(FmgCategories::WeaponInfo.spec_name()) == Some(FmgCategories::WeaponInfo),
        category_by_name(FmgCategories::GemCaption.spec_name()) == Some(FmgCategories::GemCaption),
        category_by_name(FmgCategories::GoodsInfo2.spec_name()) == Some(FmgCategories::GoodsInfo2),
        category_by_name(FmgCategories::GrMenuText.spec_name()) == Some(FmgCategories::GrMenuText),
        category_by_name(FmgCategories::GrLineHelp.spec_name()) == Some(FmgCategories::GrLineHelp),
        category_by_name(FmgCategories::GrKeyGuide.spec_name()) == Some(FmgCategories::GrKeyGuide),
{
    reveal_strlit("WeaponName");
    reveal_strlit("WeaponInfo");
    reveal_strlit("GemCaption");
    reveal_strlit("GoodsInfo2");
    reveal_strlit("GrMenuText");
    reveal_strlit("GrLineHelp");
    reveal_strlit("GrKeyGuide");
}

/// Each name of length 11 leads back to its category.
proof fn lemma_names_of_length_11()
    ensures
        category_by_name(FmgCategories::GoodsDialog.spec_name()) == Some(FmgCategories::GoodsDialog),
        category_by_name(FmgCategories::ArtsCaption.spec_name()) == Some(FmgCategories::ArtsCaption),
        category_by_name(FmgCategories::GrDialogues.spec_name()) == Some(FmgCategories::GrDialogues),
        category_by_name(FmgCategories::LoadingText.spec_name()) == Some(FmgCategories::LoadingText),
{
    reveal_strlit("GoodsDialog");
    reveal_strlit("ArtsCaption");
    reveal_strlit("GrDialogues");
    reveal_strlit("LoadingText");
}

/// Each name of length 12 leads back to its category.
proof fn lemma_names_of_length_12()
    ensures
        category_by_name(FmgCategories::GoodsCaption.spec_name()) == Some(FmgCategories::GoodsCaption),
        category_by_name(FmgCategories::MagicCaption.spec_name()) == Some(FmgCategories::MagicCaption),
        category_by_name(FmgCategories::WeaponEffect.spec_name()) == Some(FmgCategories::WeaponEffect),
        category_by_name(FmgCategories::LoadingTitle.spec_name()) == Some(FmgCategories::LoadingTitle),
        category_by_name(FmgCategories::TutorialBody.spec_name()) == Some(FmgCategories::TutorialBody),
        category_by_name(FmgCategories::GemNameDlc01.spec_name()) == Some(FmgCategories::GemNameDlc01),
        category_by_name(FmgCategories::GemInfoDlc01.spec_name()) == Some(FmgCategories::GemInfoDlc01),
        category_by_name(FmgCategories::NpcNameDlc01.spec_name()) == Some(FmgCategories::NpcNameDlc01),
        category_by_name(FmgCategories::TalkMsgDlc01.spec_name()) == Some(FmgCategories::TalkMsgDlc01),
        category_by_name(FmgCategories::GemNameDlc02.spec_name()) == Some(FmgCategories::GemNameDlc02),
        category_by_name(FmgCategories::GemInfoDlc02.spec_name()) == Some(FmgCategories::GemInfoDlc02),
        category_by_name(FmgCategories::NpcNameDlc02.spec_name()) == Some(FmgCategories::NpcNameDlc02),
        category_by_name(FmgCategories::TalkMsgDlc02.spec_name()) == Some(FmgCategories::TalkMsgDlc02),
{
    reveal_strlit("GoodsCaption");
    reveal_strlit("MagicCaption");
    reveal_strlit("WeaponEffect");
    reveal_strlit("LoadingTitle");
    reveal_strlit("TutorialBody");
    reveal_strlit("GemNameDlc01");
    reveal_strlit("GemInfoDlc01");
    reveal_strlit("NpcNameDlc01");
    reveal_strlit("TalkMsgDlc01");
    reveal_strlit("GemNameDlc02");
    reveal_strlit("GemInfoDlc02");
    reveal_strlit("NpcNameDlc02");
    reveal_strlit("TalkMsgDlc02");
}

/// Each name of length 13 leads back to its category.
proof fn lemma_names_of_length_13()
    ensures
        category_by_name(FmgCategories::MovieSubtitle.spec_name()) == Some(FmgCategories::MovieSubtitle),
        category_by_name(FmgCategories::ProtectorName.spec_name()) == Some(FmgCategories::ProtectorName),
        category_by_name(FmgCategories::AccessoryName.spec_name()) == Some(FmgCategories::AccessoryName),
        category_by_name(FmgCategories::ProtectorInfo.spec_name()) == Some(FmgCategories::ProtectorInfo),
        category_by_name(FmgCategories::AccessoryInfo.spec_name()) == Some(FmgCategories::AccessoryInfo),
        category_by_name(FmgCategories::WeaponCaption.spec_name()) == Some(FmgCategories::WeaponCaption),
        category_by_name(FmgCategories::TutorialTitle.spec_name()) == Some(FmgCategories::TutorialTitle),
        category_by_name(FmgCategories::ArtsNameDlc01.spec_name()) == Some(FmgCategories::ArtsNameDlc01),
        category_by_name(FmgCategories::BloodMsgDlc01.spec_name()) == Some(FmgCategories::BloodMsgDlc01),
        category_by_name(FmgCategories::ArtsNameDlc02.spec_name()) == Some(FmgCategories::ArtsNameDlc02),
        category_by_name(FmgCategories::BloodMsgDlc02.spec_name()) == Some(FmgCategories::BloodMsgDlc02),
{
    reveal_strlit("MovieSubtitle");
    reveal_strlit("ProtectorName");
    reveal_strlit("AccessoryName");
    reveal_strlit("ProtectorInfo");
    reveal_strlit("AccessoryInfo");
    reveal_strlit("WeaponCaption");
    reveal_strlit("TutorialTitle");
    reveal_strlit("ArtsNameDlc01");
    reveal_strlit("BloodMsgDlc01");
    reveal_strlit("ArtsNameDlc02");
    reveal_strlit("BloodMsgDlc02");
}

/// Each name of length 14 leads back to its category.
proof fn lemma_names_of_length_14()
    ensures
        category_by_name(FmgCategories::NetworkMessage.spec_name()) == Some(FmgCategories::NetworkMessage),
        category_by_name(FmgCategories::GoodsNameDlc01.spec_name()) == Some(FmgCategories::GoodsNameDlc01),
        category_by_name(FmgCategories::GoodsInfoDlc01.spec_name()) == Some(FmgCategories::GoodsInfoDlc01),
        category_by_name(FmgCategories::MagicNameDlc01.spec_name()) == Some(FmgCategories::MagicNameDlc01),
        category_by_name(FmgCategories::MagicInfoDlc01.spec_name()) == Some(FmgCategories::MagicInfoDlc01),
        category_by_name(FmgCategories::PlaceNameDlc01.spec_name()) == Some(FmgCategories::PlaceNameDlc01),
        category_by_name(FmgCategories::GemEffectDlc01.spec_name()) == Some(FmgCategories::GemEffectDlc01),
        category_by_name(FmgCategories::GoodsNameDlc02.spec_name()) == Some(FmgCategories::GoodsNameDlc02),
        category_by_name(FmgCategories::GoodsInfoDlc02.spec_name()) == Some(FmgCategories::GoodsInfoDlc02),
        category_by_name(FmgCategories::MagicNameDlc02.spec_name()) == Some(FmgCategories::MagicNameDlc02),
        category_by_name(FmgCategories::MagicInfoDlc02.spec_name()) == Some(FmgCategories::MagicInfoDlc02),
        category_by_name(FmgCategories::PlaceNameDlc02.spec_name()) == Some(FmgCategories::PlaceNameDlc02),
        category_by_name(FmgCategories::GemEffectDlc02.spec_name()) == Some(FmgCategories::GemEffectDlc02),
{
    reveal_strlit("NetworkMessage");
    reveal_strlit("GoodsNameDlc01");
    reveal_strlit("GoodsInfoDlc01");
    reveal_strlit("MagicNameDlc01");
    reveal_strlit("MagicInfoDlc01");
    reveal_strlit("PlaceNameDlc01");
    reveal_strlit("GemEffectDlc01");
    reveal_strlit("GoodsNameDlc02");
    reveal_strlit("GoodsInfoDlc02");
    reveal_strlit("MagicNameDlc02");
    reveal_strlit("MagicInfoDlc02");
    reveal_strlit("PlaceNameDlc02");
    reveal_strlit("GemEffectDlc02");
}

/// Each name of length 15 leads back to its category.
proof fn lemma_names_of_length_15()
    ensures
        category_by_name(FmgCategories::EventTextForMap.spec_name()) == Some(FmgCategories::EventTextForMap),
        category_by_name(FmgCategories::WeaponNameDlc01.spec_name()) == Some(FmgCategories::WeaponNameDlc01),
        category_by_name(FmgCategories::WeaponInfoDlc01.spec_name()) == Some(FmgCategories::WeaponInfoDlc01),
        category_by_name(FmgCategories::GemCaptionDlc01.spec_name()) == Some(FmgCategories::GemCaptionDlc01),
        category_by_name(FmgCategories::GoodsInfo2Dlc01.spec_name()) == Some(FmgCategories::GoodsInfo2Dlc01),
        category_by_name(FmgCategories::GrMenuTextDlc01.spec_name()) == Some(FmgCategories::GrMenuTextDlc01),
        category_by_name(FmgCategories::GrLineHelpDlc01.spec_name()) == Some(FmgCategories::GrLineHelpDlc01),
        category_by_name(FmgCategories::GrKeyGuideDlc01.spec_name()) == Some(FmgCategories::GrKeyGuideDlc01),
        category_by_name(FmgCategories::WeaponNameDlc02.spec_name()) == Some(FmgCategories::WeaponNameDlc02),
        category_by_name(FmgCategories::WeaponInfoDlc02.spec_name()) == Some(FmgCategories::WeaponInfoDlc02),
        category_by_name(FmgCategories::GemCaptionDlc02.spec_name()) == Some(FmgCategories::GemCaptionDlc02),
        category_by_name(FmgCategories::GoodsInfo2Dlc02.spec_name()) == Some(FmgCategories::GoodsInfo2Dlc02),
        category_by_name(FmgCategories::GrMenuTextDlc02.spec_name()) == Some(FmgCategories::GrMenuTextDlc02),
        category_by_name(FmgCategories::GrLineHelpDlc02.spec_name()) == Some(FmgCategories::GrLineHelpDlc02),
        category_by_name(FmgCategories::GrKeyGuideDlc02.spec_name()) == Some(FmgCategories::GrKeyGuideDlc02),
{
    reveal_strlit("EventTextForMap");
    reveal_strlit("WeaponNameDlc01");
    reveal_strlit("WeaponInfoDlc01");
    reveal_strlit("GemCaptionDlc01");
    reveal_strlit("GoodsInfo2Dlc01");
    reveal_strlit("GrMenuTextDlc01");
    reveal_strlit("GrLineHelpDlc01");
    reveal_strlit("GrKeyGuideDlc01");
    reveal_strlit("WeaponNameDlc02");
    reveal_strlit("WeaponInfoDlc02");
    reveal_strlit("GemCaptionDlc02");
    reveal_strlit("GoodsInfo2Dlc02");
    reveal_strlit("GrMenuTextDlc02");
    reveal_strlit("GrLineHelpDlc02");
    reveal_strlit("GrKeyGuideDlc02");
}

/// Each name of length 16 leads back to its category.
proof fn lemma_names_of_length_16()
    ensures
        category_by_name(FmgCategories::ProtectorCaption.spec_name()) == Some(FmgCategories::ProtectorCaption),
        category_by_name(FmgCategories::AccessoryCaption.spec_name()) == Some(FmgCategories::AccessoryCaption),
        category_by_name(FmgCategories::ActionButtonText.spec_name()) == Some(FmgCategories::ActionButtonText),
        category_by_name(FmgCategories::EventTextForTalk.spec_name()) == Some(FmgCategories::EventTextForTalk),
        category_by_name(FmgCategories::GoodsDialogDlc01.spec_name()) == Some(FmgCategories::GoodsDialogDlc01),
        category_by_name(FmgCategories::ArtsCaptionDlc01.spec_name()) == Some(FmgCategories::ArtsCaptionDlc01),
        category_by_name(FmgCategories::GrDialoguesDlc01.spec_name()) == Some(FmgCategories::GrDialoguesDlc01),
        category_by_name(FmgCategories::LoadingTextDlc01.spec_name()) == Some(FmgCategories::LoadingTextDlc01),
        category_by_name(FmgCategories::GoodsDialogDlc02.spec_name()) == Some(FmgCategories::GoodsDialogDlc02),
        category_by_name(FmgCategories::ArtsCaptionDlc02.spec_name()) == Some(FmgCategories::ArtsCaptionDlc02),
        category_by_name(FmgCategories::GrDialoguesDlc02.spec_name()) == Some(FmgCategories::GrDialoguesDlc02),
        category_by_name(FmgCategories::LoadingTextDlc02.spec_name()) == Some(FmgCategories::LoadingTextDlc02),
{
    reveal_strlit("ProtectorCaption");
    reveal_strlit("AccessoryCaption");
    reveal_strlit("ActionButtonText");
    reveal_strlit("EventTextForTalk");
    reveal_strlit("GoodsDialogDlc01");
    reveal_strlit("ArtsCaptionDlc01");
    reveal_strlit("GrDialoguesDlc01");
    reveal_strlit("LoadingTextDlc01");
    reveal_strlit("GoodsDialogDlc02");
    reveal_strlit("ArtsCaptionDlc02");
    reveal_strlit("GrDialoguesDlc02");
    reveal_strlit("LoadingTextDlc02");
}

/// Each name of length 17 leads back to its category.
proof fn lemma_names_of_length_17()
    ensures
        category_by_name(FmgCategories::GoodsCaptionDlc01.spec_name()) == Some(FmgCategories::GoodsCaptionDlc01),
        category_by_name(FmgCategories::MagicCaptionDlc01.spec_name()) == Some(FmgCategories::MagicCaptionDlc01),
        category_by_name(FmgCategories::WeaponEffectDlc01.spec_name()) == Some(FmgCategories::WeaponEffectDlc01),
        category_by_name(FmgCategories::LoadingTitleDlc01.spec_name()) == Some(FmgCategories::LoadingTitleDlc01),
        category_by_name(FmgCategories::TutorialBodyDlc01.spec_name()) == Some(FmgCategories::TutorialBodyDlc01),
        category_by_name(FmgCategories::GoodsCaptionDlc02.spec_name()) == Some(FmgCategories::GoodsCaptionDlc02),
        category_by_name(FmgCategories::MagicCaptionDlc02.spec_name()) == Some(FmgCategories::MagicCaptionDlc02),
        category_by_name(FmgCategories::WeaponEffectDlc02.spec_name()) == Some(FmgCategories::WeaponEffectDlc02),
        category_by_name(FmgCategories::LoadingTitleDlc02.spec_name()) == Some(FmgCategories::LoadingTitleDlc02),
        category_by_name(FmgCategories::TutorialBodyDlc02.spec_name()) == Some(FmgCategories::TutorialBodyDlc02),
{
    reveal_strlit("GoodsCaptionDlc01");
    reveal_strlit("MagicCaptionDlc01");
    reveal_strlit("WeaponEffectDlc01");
    reveal_strlit("LoadingTitleDlc01");
    reveal_strlit("TutorialBodyDlc01");
    reveal_strlit("GoodsCaptionDlc02");
    reveal_strlit("MagicCaptionDlc02");
    reveal_strlit("WeaponEffectDlc02");
    reveal_strlit("LoadingTitleDlc02");
    reveal_strlit("TutorialBodyDlc02");
}

/// Each name of length 18 leads back to its category.
proof fn lemma_names_of_length_18()
    ensures
        category_by_name(FmgCategories::WeaponCaptionDlc01.spec_name()) == Some(FmgCategories::WeaponCaptionDlc01),
        category_by_name(FmgCategories::ProtectorNameDlc01.spec_name()) == Some(FmgCategories::ProtectorNameDlc01),
        category_by_name(FmgCategories::ProtectorInfoDlc01.spec_name()) == Some(FmgCategories::ProtectorInfoDlc01),
        category_by_name(FmgCategories::AccessoryNameDlc01.spec_name()) == Some(FmgCategories::AccessoryNameDlc01),
        category_by_name(FmgCategories::AccessoryInfoDlc01.spec_name()) == Some(FmgCategories::AccessoryInfoDlc01),
        category_by_name(FmgCategories::MovieSubtitleDlc01.spec_name()) == Some(FmgCategories::MovieSubtitleDlc01),
        category_by_name(FmgCategories::TutorialTitleDlc01.spec_name()) == Some(FmgCategories::TutorialTitleDlc01),
        category_by_name(FmgCategories::WeaponCaptionDlc02.spec_name()) == Some(FmgCategories::WeaponCaptionDlc02),
        category_by_name(FmgCategories::ProtectorNameDlc02.spec_name()) == Some(FmgCategories::ProtectorNameDlc02),
        category_by_name(FmgCategories::ProtectorInfoDlc02.spec_name()) == Some(FmgCategories::ProtectorInfoDlc02),
        category_by_name(FmgCategories::AccessoryNameDlc02.spec_name()) == Some(FmgCategories::AccessoryNameDlc02),
        category_by_name(FmgCategories::AccessoryInfoDlc02.spec_name()) == Some(FmgCategories::AccessoryInfoDlc02),
        category_by_name(FmgCategories::MovieSubtitleDlc02.spec_name()) == Some(FmgCategories::MovieSubtitleDlc02),
        category_by_name(FmgCategories::TutorialTitleDlc02.spec_name()) == Some(FmgCategories::TutorialTitleDlc02),
{
    reveal_strlit("WeaponCaptionDlc01");
    reveal_strlit("ProtectorNameDlc01");
    reveal_strlit("ProtectorInfoDlc01");
    reveal_strlit("AccessoryNameDlc01");
    reveal_strlit("AccessoryInfoDlc01");
    reveal_strlit("MovieSubtitleDlc01");
    reveal_strlit("TutorialTitleDlc01");
    reveal_strlit("WeaponCaptionDlc02");
    reveal_strlit("ProtectorNameDlc02");
    reveal_strlit("ProtectorInfoDlc02");
    reveal_strlit("AccessoryNameDlc02");
    reveal_strlit("AccessoryInfoDlc02");
    reveal_strlit("MovieSubtitleDlc02");
    reveal_strlit("TutorialTitleDlc02");
}

/// Each name of length 19 leads back to its category.
proof fn lemma_names_of_length_19()
    ensures
        category_by_name(FmgCategories::NetworkMessageDlc01.spec_name()) == Some(FmgCategories::NetworkMessageDlc01),
        category_by_name(FmgCategories::NetworkMessageDlc02.spec_name()) == Some(FmgCategories::NetworkMessageDlc02),
{
    reveal_strlit("NetworkMessageDlc01");
    reveal_strlit("NetworkMessageDlc02");
}

/// Each name of length 20 leads back to its category.
proof fn lemma_names_of_length_20()
    ensures
        category_by_name(FmgCategories::GrSystemMessageWin64.spec_name()) == Some(FmgCategories::GrSystemMessageWin64),
        category_by_name(FmgCategories::EventTextForMapDlc01.spec_name()) == Some(FmgCategories::EventTextForMapDlc01),
        category_by_name(FmgCategories::EventTextForMapDlc02.spec_name()) == Some(FmgCategories::EventTextForMapDlc02),
{
    reveal_strlit("GrSystemMessageWin64");
    reveal_strlit("EventTextForMapDlc01");
    reveal_strlit("EventTextForMapDlc02");
}

/// Each name of length 21 leads back to its category.
proof fn lemma_names_of_length_21()
    ensures
        category_by_name(FmgCategories::ProtectorCaptionDlc01.spec_name()) == Some(FmgCategories::ProtectorCaptionDlc01),
        category_by_name(FmgCategories::AccessoryCaptionDlc01.spec_name()) == Some(FmgCategories::AccessoryCaptionDlc01),
        category_by_name(FmgCategories::ActionButtonTextDlc01.spec_name()) == Some(FmgCategories::ActionButtonTextDlc01),
        category_by_name(FmgCategories::EventTextForTalkDlc01.spec_name()) == Some(FmgCategories::EventTextForTalkDlc01),
        category_by_name(FmgCategories::ProtectorCaptionDlc02.spec_name()) == Some(FmgCategories::ProtectorCaptionDlc02),
        category_by_name(FmgCategories::AccessoryCaptionDlc02.spec_name()) == Some(FmgCategories::AccessoryCaptionDlc02),
        category_by_name(FmgCategories::ActionButtonTextDlc02.spec_name()) == Some(FmgCategories::ActionButtonTextDlc02),
        category_by_name(FmgCategories::EventTextForTalkDlc02.spec_name()) == Some(FmgCategories::EventTextForTalkDlc02),
{
    reveal_strlit("ProtectorCaptionDlc01");
    reveal_strlit("AccessoryCaptionDlc01");
    reveal_strlit("ActionButtonTextDlc01");
    reveal_strlit("EventTextForTalkDlc01");
    reveal_strlit("ProtectorCaptionDlc02");
    reveal_strlit("AccessoryCaptionDlc02");
    reveal_strlit("ActionButtonTextDlc02");
    reveal_strlit("EventTextForTalkDlc02");
}

/// Each name of length 23 leads back to its category.
proof fn lemma_names_of_length_23()
    ensures
        category_by_name(FmgCategories::TextEmbedImageNameWin64.spec_name()) == Some(FmgCategories::TextEmbedImageNameWin64),
{
    reveal_strlit("TextEmbedImageNameWin64");
}

/// Each name of length 25 leads back to its category.
proof fn lemma_names_of_length_25()
    ensures
        category_by_name(FmgCategories::GrSystemMessageWin64Dlc01.spec_name()) == Some(FmgCategories::GrSystemMessageWin64Dlc01),
        category_by_name(FmgCategories::GrSystemMessageWin64Dlc02.spec_name()) == Some(FmgCategories::GrSystemMessageWin64Dlc02),
{
    reveal_strlit("GrSystemMessageWin64Dlc01");
    reveal_strlit("GrSystemMessageWin64Dlc02");
}

/// Each category's name leads back to that category.
pub proof fn lemma_category_by_name(c: FmgCategories)
    ensures
        category_by_name(c.spec_name()) == Some(c),
{
    lemma_names_of_length_7();
    lemma_names_of_length_8();
    lemma_names_of_length_9();
    lemma_names_of_length_10();
    lemma_names_of_length_11();
    lemma_names_of_length_12();
    lemma_names_of_length_13();
    lemma_names_of_length_14();
    lemma_names_of_length_15();
    lemma_names_of_length_16();
    lemma_names_of_length_17();
    lemma_names_of_length_18();
    lemma_names_of_length_19();
    lemma_names_of_length_20();
    lemma_names_of_length_21();
    lemma_names_of_length_23();
    lemma_names_of_length_25();
}

/// No two categories have the same name.
pub proof fn lemma_names_distinct(a: FmgCategories, b: FmgCategories)
    requires
        a.spec_name() == b.spec_name(),
    ensures
        a == b,
{
    lemma_category_by_name(a);
    lemma_category_by_name(b);
}

} // verus!
