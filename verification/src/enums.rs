//! The numeric enumerations of the remote schema. Each variant stands for a
//! documented integer code; `code` and `from_code` are exact inverses, so a
//! value and its wire form determine each other.
use crate::json::{Json, JsonMembers, JsonV};
use vstd::prelude::*;

verus! {

#[derive(Debug, Clone, Copy, PartialEq, Eq, Structural)]
pub enum CoreStatus {
    Draft,
    Test,
    PendingReview,
    Rejected,
    Approved,
    Live,
}

impl CoreStatus {
    /// The integer code that the remote schema uses for this variant.
    pub open spec fn code(self) -> int {
        match self {
            CoreStatus::Draft => 1,
            CoreStatus::Test => 2,
            CoreStatus::PendingReview => 3,
            CoreStatus::Rejected => 4,
            CoreStatus::Approved => 5,
            CoreStatus::Live => 6,
        }
    }

    /// The variant of an integer code, if the code is documented.
    pub open spec fn from_code(c: int) -> Option<CoreStatus> {
        if c == 1 {
            Option::Some(CoreStatus::Draft)
        } else if c == 2 {
            Option::Some(CoreStatus::Test)
        } else if c == 3 {
            Option::Some(CoreStatus::PendingReview)
        } else if c == 4 {
            Option::Some(CoreStatus::Rejected)
        } else if c == 5 {
            Option::Some(CoreStatus::Approved)
        } else if c == 6 {
            Option::Some(CoreStatus::Live)
        } else {
            Option::None
        }
    }

    pub fn to_code(self) -> (r: i64)
        ensures
            r as int == self.code(),
    {
        match self {
            CoreStatus::Draft => 1,
            CoreStatus::Test => 2,
            CoreStatus::PendingReview => 3,
            CoreStatus::Rejected => 4,
            CoreStatus::Approved => 5,
            CoreStatus::Live => 6,
        }
    }

    pub fn decode(c: i64) -> (r: Option<CoreStatus>)
        ensures
            r == CoreStatus::from_code(c as int),
    {
        match c {
            1 => Option::Some(CoreStatus::Draft),
            2 => Option::Some(CoreStatus::Test),
            3 => Option::Some(CoreStatus::PendingReview),
            4 => Option::Some(CoreStatus::Rejected),
            5 => Option::Some(CoreStatus::Approved),
            6 => Option::Some(CoreStatus::Live),
            _ => Option::None,
        }
    }

    /// The code of a variant decodes to that variant and to nothing else.
    pub proof fn lemma_code_inverse(self, c: int)
        ensures
            CoreStatus::from_code(self.code()) == Option::Some(self),
            CoreStatus::from_code(c) matches Option::Some(e) ==> e.code() == c,
    {
    }
}

#[derive(Debug, Clone, Copy, PartialEq, Eq, Structural)]
pub enum CoreApiStatus {
    Private,
    Public,
}

impl CoreApiStatus {
    /// The integer code that the remote schema uses for this variant.
    pub open spec fn code(self) -> int {
        match self {
            CoreApiStatus::Private => 1,
            CoreApiStatus::Public => 2,
        }
    }

    /// The variant of an integer code, if the code is documented.
    pub open spec fn from_code(c: int) -> Option<CoreApiStatus> {
        if c == 1 {
            Option::Some(CoreApiStatus::Private)
        } else if c == 2 {
            Option::Some(CoreApiStatus::Public)
        } else {
            Option::None
        }
    }

    pub fn to_code(self) -> (r: i64)
        ensures
            r as int == self.code(),
    {
        match self {
            CoreApiStatus::Private => 1,
            CoreApiStatus::Public => 2,
        }
    }

    pub fn decode(c: i64) -> (r: Option<CoreApiStatus>)
        ensures
            r == CoreApiStatus::from_code(c as int),
    {
        match c {
            1 => Option::Some(CoreApiStatus::Private),
            2 => Option::Some(CoreApiStatus::Public),
            _ => Option::None,
        }
    }

    /// The code of a variant decodes to that variant and to nothing else.
    pub proof fn lemma_code_inverse(self, c: int)
        ensures
            CoreApiStatus::from_code(self.code()) == Option::Some(self),
            CoreApiStatus::from_code(c) matches Option::Some(e) ==> e.code() == c,
    {
    }
}

#[derive(Debug, Clone, Copy, PartialEq, Eq, Structural)]
pub enum GameVersionStatus {
    Approved,
    Deleted,
    New,
}

impl GameVersionStatus {
    /// The integer code that the remote schema uses for this variant.
    pub open spec fn code(self) -> int {
        match self {
            GameVersionStatus::Approved => 1,
            GameVersionStatus::Deleted => 2,
            GameVersionStatus::New => 3,
        }
    }

    /// The variant of an integer code, if the code is documented.
    pub open spec fn from_code(c: int) -> Option<GameVersionStatus> {
        if c == 1 {
            Option::Some(GameVersionStatus::Approved)
        } else if c == 2 {
            Option::Some(GameVersionStatus::Deleted)
        } else if c == 3 {
            Option::Some(GameVersionStatus::New)
        } else {
            Option::None
        }
    }

    pub fn to_code(self) -> (r: i64)
        ensures
            r as int == self.code(),
    {
        match self {
            GameVersionStatus::Approved => 1,
            GameVersionStatus::Deleted => 2,
            GameVersionStatus::New => 3,
        }
    }

    pub fn decode(c: i64) -> (r: Option<GameVersionStatus>)
        ensures
            r == GameVersionStatus::from_code(c as int),
    {
        match c {
            1 => Option::Some(GameVersionStatus::Approved),
            2 => Option::Some(GameVersionStatus::Deleted),
            3 => Option::Some(GameVersionStatus::New),
            _ => Option::None,
        }
    }

    /// The code of a variant decodes to that variant and to nothing else.
    pub proof fn lemma_code_inverse(self, c: int)
        ensures
            GameVersionStatus::from_code(self.code()) == Option::Some(self),
            GameVersionStatus::from_code(c) matches Option::Some(e) ==> e.code() == c,
    {
    }
}

#[derive(Debug, Clone, Copy, PartialEq, Eq, Structural)]
pub enum GameVersionTypeStatus {
    Normal,
    Deleted,
}

impl GameVersionTypeStatus {
    /// The integer code that the remote schema uses for this variant.
    pub open spec fn code(self) -> int {
        match self {
            GameVersionTypeStatus::Normal => 1,
            GameVersionTypeStatus::Deleted => 2,
        }
    }

    /// The variant of an integer code, if the code is documented.
    pub open spec fn from_code(c: int) -> Option<GameVersionTypeStatus> {
        if c == 1 {
            Option::Some(GameVersionTypeStatus::Normal)
        } else if c == 2 {
            Option::Some(GameVersionTypeStatus::Deleted)
        } else {
            Option::None
        }
    }

    pub fn to_code(self) -> (r: i64)
        ensures
            r as int == self.code(),
    {
        match self {
            GameVersionTypeStatus::Normal => 1,
            GameVersionTypeStatus::Deleted => 2,
        }
    }

    pub fn decode(c: i64) -> (r: Option<GameVersionTypeStatus>)
        ensures
            r == GameVersionTypeStatus::from_code(c as int),
    {
        match c {
            1 => Option::Some(GameVersionTypeStatus::Normal),
            2 => Option::Some(GameVersionTypeStatus::Deleted),
            _ => Option::None,
        }
    }

    /// The code of a variant decodes to that variant and to nothing else.
    pub proof fn lemma_code_inverse(self, c: int)
        ensures
            GameVersionTypeStatus::from_code(self.code()) == Option::Some(self),
            GameVersionTypeStatus::from_code(c) matches Option::Some(e) ==> e.code() == c,
    {
    }
}

#[derive(Debug, Clone, Copy, PartialEq, Eq, Structural)]
pub enum ModStatus {
    New,
    ChangesRequired,
    UnderSoftReview,
    Approved,
    Rejected,
    ChangesMade,
    Inactive,
    Abandoned,
    Deleted,
    UnderReview,
}

impl ModStatus {
    /// The integer code that the remote schema uses for this variant.
    pub open spec fn code(self) -> int {
        match self {
            ModStatus::New => 1,
            ModStatus::ChangesRequired => 2,
            ModStatus::UnderSoftReview => 3,
            ModStatus::Approved => 4,
            ModStatus::Rejected => 5,
            ModStatus::ChangesMade => 6,
            ModStatus::Inactive => 7,
            ModStatus::Abandoned => 8,
            ModStatus::Deleted => 9,
            ModStatus::UnderReview => 10,
        }
    }

    /// The variant of an integer code, if the code is documented.
    pub open spec fn from_code(c: int) -> Option<ModStatus> {
        if c == 1 {
            Option::Some(ModStatus::New)
        } else if c == 2 {
            Option::Some(ModStatus::ChangesRequired)
        } else if c == 3 {
            Option::Some(ModStatus::UnderSoftReview)
        } else if c == 4 {
            Option::Some(ModStatus::Approved)
        } else if c == 5 {
            Option::Some(ModStatus::Rejected)
        } else if c == 6 {
            Option::Some(ModStatus::ChangesMade)
        } else if c == 7 {
            Option::Some(ModStatus::Inactive)
        } else if c == 8 {
            Option::Some(ModStatus::Abandoned)
        } else if c == 9 {
            Option::Some(ModStatus::Deleted)
        } else if c == 10 {
            Option::Some(ModStatus::UnderReview)
        } else {
            Option::None
        }
    }

    pub fn to_code(self) -> (r: i64)
        ensures
            r as int == self.code(),
    {
        match self {
            ModStatus::New => 1,
            ModStatus::ChangesRequired => 2,
            ModStatus::UnderSoftReview => 3,
            ModStatus::Approved => 4,
            ModStatus::Rejected => 5,
            ModStatus::ChangesMade => 6,
            ModStatus::Inactive => 7,
            ModStatus::Abandoned => 8,
            ModStatus::Deleted => 9,
            ModStatus::UnderReview => 10,
        }
    }

    pub fn decode(c: i64) -> (r: Option<ModStatus>)
        ensures
            r == ModStatus::from_code(c as int),
    {
        match c {
            1 => Option::Some(ModStatus::New),
            2 => Option::Some(ModStatus::ChangesRequired),
            3 => Option::Some(ModStatus::UnderSoftReview),
            4 => Option::Some(ModStatus::Approved),
            5 => Option::Some(ModStatus::Rejected),
            6 => Option::Some(ModStatus::ChangesMade),
            7 => Option::Some(ModStatus::Inactive),
            8 => Option::Some(ModStatus::Abandoned),
            9 => Option::Some(ModStatus::Deleted),
            10 => Option::Some(ModStatus::UnderReview),
            _ => Option::None,
        }
    }

    /// The code of a variant decodes to that variant and to nothing else.
    pub proof fn lemma_code_inverse(self, c: int)
        ensures
            ModStatus::from_code(self.code()) == Option::Some(self),
            ModStatus::from_code(c) matches Option::Some(e) ==> e.code() == c,
    {
    }
}

#[derive(Debug, Clone, Copy, PartialEq, Eq, Structural)]
pub enum FileReleaseType {
    Release,
    Beta,
    Alpha,
}

impl FileReleaseType {
    /// The integer code that the remote schema uses for this variant.
    pub open spec fn code(self) -> int {
        match self {
            FileReleaseType::Release => 1,
            FileReleaseType::Beta => 2,
            FileReleaseType::Alpha => 3,
        }
    }

    /// The variant of an integer code, if the code is documented.
    pub open spec fn from_code(c: int) -> Option<FileReleaseType> {
        if c == 1 {
            Option::Some(FileReleaseType::Release)
        } else if c == 2 {
            Option::Some(FileReleaseType::Beta)
        } else if c == 3 {
            Option::Some(FileReleaseType::Alpha)
        } else {
            Option::None
        }
    }

    pub fn to_code(self) -> (r: i64)
        ensures
            r as int == self.code(),
    {
        match self {
            FileReleaseType::Release => 1,
            FileReleaseType::Beta => 2,
            FileReleaseType::Alpha => 3,
        }
    }

    pub fn decode(c: i64) -> (r: Option<FileReleaseType>)
        ensures
            r == FileReleaseType::from_code(c as int),
    {
        match c {
            1 => Option::Some(FileReleaseType::Release),
            2 => Option::Some(FileReleaseType::Beta),
            3 => Option::Some(FileReleaseType::Alpha),
            _ => Option::None,
        }
    }

    /// The code of a variant decodes to that variant and to nothing else.
    pub proof fn lemma_code_inverse(self, c: int)
        ensures
            FileReleaseType::from_code(self.code()) == Option::Some(self),
            FileReleaseType::from_code(c) matches Option::Some(e) ==> e.code() == c,
    {
    }
}

#[derive(Debug, Clone, Copy, PartialEq, Eq, Structural)]
pub enum FileStatus {
    Processing,
    ChangesRequired,
    UnderReview,
    Approved,
    Rejected,
    MalwareDetected,
    Deleted,
    Archived,
    Testing,
    Released,
    ReadyForReview,
    Deprecated,
    Baking,
    AwaitingPublishing,
    FailedPublishing,
    Cooking,
    Cooked,
    UnderManualReview,
    ScanningForMalware,
    ProcessingFile,
    PendingRelease,
    ReadyForCooking,
    PostProcessing,
}

impl FileStatus {
    /// The integer code that the remote schema uses for this variant.
    pub open spec fn code(self) -> int {
        match self {
            FileStatus::Processing => 1,
            FileStatus::ChangesRequired => 2,
            FileStatus::UnderReview => 3,
            FileStatus::Approved => 4,
            FileStatus::Rejected => 5,
            FileStatus::MalwareDetected => 6,
            FileStatus::Deleted => 7,
            FileStatus::Archived => 8,
            FileStatus::Testing => 9,
            FileStatus::Released => 10,
            FileStatus::ReadyForReview => 11,
            FileStatus::Deprecated => 12,
            FileStatus::Baking => 13,
            FileStatus::AwaitingPublishing => 14,
            FileStatus::FailedPublishing => 15,
            FileStatus::Cooking => 16,
            FileStatus::Cooked => 17,
            FileStatus::UnderManualReview => 18,
            FileStatus::ScanningForMalware => 19,
            FileStatus::ProcessingFile => 20,
            FileStatus::PendingRelease => 21,
            FileStatus::ReadyForCooking => 22,
            FileStatus::PostProcessing => 23,
        }
    }

    /// The variant of an integer code, if the code is documented.
    pub open spec fn from_code(c: int) -> Option<FileStatus> {
        if c == 1 {
            Option::Some(FileStatus::Processing)
        } else if c == 2 {
            Option::Some(FileStatus::ChangesRequired)
        } else if c == 3 {
            Option::Some(FileStatus::UnderReview)
        } else if c == 4 {
            Option::Some(FileStatus::Approved)
        } else if c == 5 {
            Option::Some(FileStatus::Rejected)
        } else if c == 6 {
            Option::Some(FileStatus::MalwareDetected)
        } else if c == 7 {
            Option::Some(FileStatus::Deleted)
        } else if c == 8 {
            Option::Some(FileStatus::Archived)
        } else if c == 9 {
            Option::Some(FileStatus::Testing)
        } else if c == 10 {
            Option::Some(FileStatus::Released)
        } else if c == 11 {
            Option::Some(FileStatus::ReadyForReview)
        } else if c == 12 {
            Option::Some(FileStatus::Deprecated)
        } else if c == 13 {
            Option::Some(FileStatus::Baking)
        } else if c == 14 {
            Option::Some(FileStatus::AwaitingPublishing)
        } else if c == 15 {
            Option::Some(FileStatus::FailedPublishing)
        } else if c == 16 {
            Option::Some(FileStatus::Cooking)
        } else if c == 17 {
            Option::Some(FileStatus::Cooked)
        } else if c == 18 {
            Option::Some(FileStatus::UnderManualReview)
        } else if c == 19 {
            Option::Some(FileStatus::ScanningForMalware)
        } else if c == 20 {
            Option::Some(FileStatus::ProcessingFile)
        } else if c == 21 {
            Option::Some(FileStatus::PendingRelease)
        } else if c == 22 {
            Option::Some(FileStatus::ReadyForCooking)
        } else if c == 23 {
            Option::Some(FileStatus::PostProcessing)
        } else {
            Option::None
        }
    }

    pub fn to_code(self) -> (r: i64)
        ensures
            r as int == self.code(),
    {
        match self {
            FileStatus::Processing => 1,
            FileStatus::ChangesRequired => 2,
            FileStatus::UnderReview => 3,
            FileStatus::Approved => 4,
            FileStatus::Rejected => 5,
            FileStatus::MalwareDetected => 6,
            FileStatus::Deleted => 7,
            FileStatus::Archived => 8,
            FileStatus::Testing => 9,
            FileStatus::Released => 10,
            FileStatus::ReadyForReview => 11,
            FileStatus::Deprecated => 12,
            FileStatus::Baking => 13,
            FileStatus::AwaitingPublishing => 14,
            FileStatus::FailedPublishing => 15,
            FileStatus::Cooking => 16,
            FileStatus::Cooked => 17,
            FileStatus::UnderManualReview => 18,
            FileStatus::ScanningForMalware => 19,
            FileStatus::ProcessingFile => 20,
            FileStatus::PendingRelease => 21,
            FileStatus::ReadyForCooking => 22,
            FileStatus::PostProcessing => 23,
        }
    }

    pub fn decode(c: i64) -> (r: Option<FileStatus>)
        ensures
            r == FileStatus::from_code(c as int),
    {
        match c {
            1 => Option::Some(FileStatus::Processing),
            2 => Option::Some(FileStatus::ChangesRequired),
            3 => Option::Some(FileStatus::UnderReview),
            4 => Option::Some(FileStatus::Approved),
            5 => Option::Some(FileStatus::Rejected),
            6 => Option::Some(FileStatus::MalwareDetected),
            7 => Option::Some(FileStatus::Deleted),
            8 => Option::Some(FileStatus::Archived),
            9 => Option::Some(FileStatus::Testing),
            10 => Option::Some(FileStatus::Released),
            11 => Option::Some(FileStatus::ReadyForReview),
            12 => Option::Some(FileStatus::Deprecated),
            13 => Option::Some(FileStatus::Baking),
            14 => Option::Some(FileStatus::AwaitingPublishing),
            15 => Option::Some(FileStatus::FailedPublishing),
            16 => Option::Some(FileStatus::Cooking),
            17 => Option::Some(FileStatus::Cooked),
            18 => Option::Some(FileStatus::UnderManualReview),
            19 => Option::Some(FileStatus::ScanningForMalware),
            20 => Option::Some(FileStatus::ProcessingFile),
            21 => Option::Some(FileStatus::PendingRelease),
            22 => Option::Some(FileStatus::ReadyForCooking),
            23 => Option::Some(FileStatus::PostProcessing),
            _ => Option::None,
        }
    }

    /// The code of a variant decodes to that variant and to nothing else.
    pub proof fn lemma_code_inverse(self, c: int)
        ensures
            FileStatus::from_code(self.code()) == Option::Some(self),
            FileStatus::from_code(c) matches Option::Some(e) ==> e.code() == c,
    {
    }
}

#[derive(Debug, Clone, Copy, PartialEq, Eq, Structural)]
pub enum FileRelationType {
    EmbeddedLibrary,
    OptionalDependency,
    RequiredDependency,
    Tool,
    Incompatible,
    Include,
}

impl FileRelationType {
    /// The integer code that the remote schema uses for this variant.
    pub open spec fn code(self) -> int {
        match self {
            FileRelationType::EmbeddedLibrary => 1,
            FileRelationType::OptionalDependency => 2,
            FileRelationType::RequiredDependency => 3,
            FileRelationType::Tool => 4,
            FileRelationType::Incompatible => 5,
            FileRelationType::Include => 6,
        }
    }

    /// The variant of an integer code, if the code is documented.
    pub open spec fn from_code(c: int) -> Option<FileRelationType> {
        if c == 1 {
            Option::Some(FileRelationType::EmbeddedLibrary)
        } else if c == 2 {
            Option::Some(FileRelationType::OptionalDependency)
        } else if c == 3 {
            Option::Some(FileRelationType::RequiredDependency)
        } else if c == 4 {
            Option::Some(FileRelationType::Tool)
        } else if c == 5 {
            Option::Some(FileRelationType::Incompatible)
        } else if c == 6 {
            Option::Some(FileRelationType::Include)
        } else {
            Option::None
        }
    }

    pub fn to_code(self) -> (r: i64)
        ensures
            r as int == self.code(),
    {
        match self {
            FileRelationType::EmbeddedLibrary => 1,
            FileRelationType::OptionalDependency => 2,
            FileRelationType::RequiredDependency => 3,
            FileRelationType::Tool => 4,
            FileRelationType::Incompatible => 5,
            FileRelationType::Include => 6,
        }
    }

    pub fn decode(c: i64) -> (r: Option<FileRelationType>)
        ensures
            r == FileRelationType::from_code(c as int),
    {
        match c {
            1 => Option::Some(FileRelationType::EmbeddedLibrary),
            2 => Option::Some(FileRelationType::OptionalDependency),
            3 => Option::Some(FileRelationType::RequiredDependency),
            4 => Option::Some(FileRelationType::Tool),
            5 => Option::Some(FileRelationType::Incompatible),
            6 => Option::Some(FileRelationType::Include),
            _ => Option::None,
        }
    }

    /// The code of a variant decodes to that variant and to nothing else.
    pub proof fn lemma_code_inverse(self, c: int)
        ensures
            FileRelationType::from_code(self.code()) == Option::Some(self),
            FileRelationType::from_code(c) matches Option::Some(e) ==> e.code() == c,
    {
    }
}

#[derive(Debug, Clone, Copy, PartialEq, Eq, Structural)]
pub enum HashAlgo {
    Sha1,
    Md5,
}

impl HashAlgo {
    /// The integer code that the remote schema uses for this variant.
    pub open spec fn code(self) -> int {
        match self {
            HashAlgo::Sha1 => 1,
            HashAlgo::Md5 => 2,
        }
    }

    /// The variant of an integer code, if the code is documented.
    pub open spec fn from_code(c: int) -> Option<HashAlgo> {
        if c == 1 {
            Option::Some(HashAlgo::Sha1)
        } else if c == 2 {
            Option::Some(HashAlgo::Md5)
        } else {
            Option::None
        }
    }

    pub fn to_code(self) -> (r: i64)
        ensures
            r as int == self.code(),
    {
        match self {
            HashAlgo::Sha1 => 1,
            HashAlgo::Md5 => 2,
        }
    }

    pub fn decode(c: i64) -> (r: Option<HashAlgo>)
        ensures
            r == HashAlgo::from_code(c as int),
    {
        match c {
            1 => Option::Some(HashAlgo::Sha1),
            2 => Option::Some(HashAlgo::Md5),
            _ => Option::None,
        }
    }

    /// The code of a variant decodes to that variant and to nothing else.
    pub proof fn lemma_code_inverse(self, c: int)
        ensures
            HashAlgo::from_code(self.code()) == Option::Some(self),
            HashAlgo::from_code(c) matches Option::Some(e) ==> e.code() == c,
    {
    }
}

#[derive(Debug, Clone, Copy, PartialEq, Eq, Structural)]
pub enum ModLoaderType {
    Any,
    Forge,
    Cauldron,
    LiteLoader,
    Fabric,
    Quilt,
    NeoForge,
}

impl ModLoaderType {
    /// The integer code that the remote schema uses for this variant.
    pub open spec fn code(self) -> int {
        match self {
            ModLoaderType::Any => 0,
            ModLoaderType::Forge => 1,
            ModLoaderType::Cauldron => 2,
            ModLoaderType::LiteLoader => 3,
            ModLoaderType::Fabric => 4,
            ModLoaderType::Quilt => 5,
            ModLoaderType::NeoForge => 6,
        }
    }

    /// The variant of an integer code, if the code is documented.
    pub open spec fn from_code(c: int) -> Option<ModLoaderType> {
        if c == 0 {
            Option::Some(ModLoaderType::Any)
        } else if c == 1 {
            Option::Some(ModLoaderType::Forge)
        } else if c == 2 {
            Option::Some(ModLoaderType::Cauldron)
        } else if c == 3 {
            Option::Some(ModLoaderType::LiteLoader)
        } else if c == 4 {
            Option::Some(ModLoaderType::Fabric)
        } else if c == 5 {
            Option::Some(ModLoaderType::Quilt)
        } else if c == 6 {
            Option::Some(ModLoaderType::NeoForge)
        } else {
            Option::None
        }
    }

    pub fn to_code(self) -> (r: i64)
        ensures
            r as int == self.code(),
    {
        match self {
            ModLoaderType::Any => 0,
            ModLoaderType::Forge => 1,
            ModLoaderType::Cauldron => 2,
            ModLoaderType::LiteLoader => 3,
            ModLoaderType::Fabric => 4,
            ModLoaderType::Quilt => 5,
            ModLoaderType::NeoForge => 6,
        }
    }

    pub fn decode(c: i64) -> (r: Option<ModLoaderType>)
        ensures
            r == ModLoaderType::from_code(c as int),
    {
        match c {
            0 => Option::Some(ModLoaderType::Any),
            1 => Option::Some(ModLoaderType::Forge),
            2 => Option::Some(ModLoaderType::Cauldron),
            3 => Option::Some(ModLoaderType::LiteLoader),
            4 => Option::Some(ModLoaderType::Fabric),
            5 => Option::Some(ModLoaderType::Quilt),
            6 => Option::Some(ModLoaderType::NeoForge),
            _ => Option::None,
        }
    }

    /// The code of a variant decodes to that variant and to nothing else.
    pub proof fn lemma_code_inverse(self, c: int)
        ensures
            ModLoaderType::from_code(self.code()) == Option::Some(self),
            ModLoaderType::from_code(c) matches Option::Some(e) ==> e.code() == c,
    {
    }
}

#[derive(Debug, Clone, Copy, PartialEq, Eq, Structural)]
pub enum ModLoaderInstallMethod {
    ForgeInstaller,
    ForgeJarInstall,
    ForgeInstallerV2,
    FabricInstaller,
    QuiltInstaller,
    NeoForgeInstaller,
}

impl ModLoaderInstallMethod {
    /// The integer code that the remote schema uses for this variant.
    pub open spec fn code(self) -> int {
        match self {
            ModLoaderInstallMethod::ForgeInstaller => 1,
            ModLoaderInstallMethod::ForgeJarInstall => 2,
            ModLoaderInstallMethod::ForgeInstallerV2 => 3,
            ModLoaderInstallMethod::FabricInstaller => 4,
            ModLoaderInstallMethod::QuiltInstaller => 5,
            ModLoaderInstallMethod::NeoForgeInstaller => 6,
        }
    }

    /// The variant of an integer code, if the code is documented.
    pub open spec fn from_code(c: int) -> Option<ModLoaderInstallMethod> {
        if c == 1 {
            Option::Some(ModLoaderInstallMethod::ForgeInstaller)
        } else if c == 2 {
            Option::Some(ModLoaderInstallMethod::ForgeJarInstall)
        } else if c == 3 {
            Option::Some(ModLoaderInstallMethod::ForgeInstallerV2)
        } else if c == 4 {
            Option::Some(ModLoaderInstallMethod::FabricInstaller)
        } else if c == 5 {
            Option::Some(ModLoaderInstallMethod::QuiltInstaller)
        } else if c == 6 {
            Option::Some(ModLoaderInstallMethod::NeoForgeInstaller)
        } else {
            Option::None
        }
    }

    pub fn to_code(self) -> (r: i64)
        ensures
            r as int == self.code(),
    {
        match self {
            ModLoaderInstallMethod::ForgeInstaller => 1,
            ModLoaderInstallMethod::ForgeJarInstall => 2,
            ModLoaderInstallMethod::ForgeInstallerV2 => 3,
            ModLoaderInstallMethod::FabricInstaller => 4,
            ModLoaderInstallMethod::QuiltInstaller => 5,
            ModLoaderInstallMethod::NeoForgeInstaller => 6,
        }
    }

    pub fn decode(c: i64) -> (r: Option<ModLoaderInstallMethod>)
        ensures
            r == ModLoaderInstallMethod::from_code(c as int),
    {
        match c {
            1 => Option::Some(ModLoaderInstallMethod::ForgeInstaller),
            2 => Option::Some(ModLoaderInstallMethod::ForgeJarInstall),
            3 => Option::Some(ModLoaderInstallMethod::ForgeInstallerV2),
            4 => Option::Some(ModLoaderInstallMethod::FabricInstaller),
            5 => Option::Some(ModLoaderInstallMethod::QuiltInstaller),
            6 => Option::Some(ModLoaderInstallMethod::NeoForgeInstaller),
            _ => Option::None,
        }
    }

    /// The code of a variant decodes to that variant and to nothing else.
    pub proof fn lemma_code_inverse(self, c: int)
        ensures
            ModLoaderInstallMethod::from_code(self.code()) == Option::Some(self),
            ModLoaderInstallMethod::from_code(c) matches Option::Some(e) ==> e.code() == c,
    {
    }
}

#[derive(Debug, Clone, Copy, PartialEq, Eq, Structural)]
pub enum ModsSearchSortField {
    Featured,
    Popularity,
    LastUpdated,
    Name,
    Author,
    TotalDownloads,
    Category,
    GameVersion,
    EarlyAccess,
    FeaturedReleased,
    ReleasedDate,
    Rating,
}

impl ModsSearchSortField {
    /// The integer code that the remote schema uses for this variant.
    pub open spec fn code(self) -> int {
        match self {
            ModsSearchSortField::Featured => 1,
            ModsSearchSortField::Popularity => 2,
            ModsSearchSortField::LastUpdated => 3,
            ModsSearchSortField::Name => 4,
            ModsSearchSortField::Author => 5,
            ModsSearchSortField::TotalDownloads => 6,
            ModsSearchSortField::Category => 7,
            ModsSearchSortField::GameVersion => 8,
            ModsSearchSortField::EarlyAccess => 9,
            ModsSearchSortField::FeaturedReleased => 10,
            ModsSearchSortField::ReleasedDate => 11,
            ModsSearchSortField::Rating => 12,
        }
    }

    /// The variant of an integer code, if the code is documented.
    pub open spec fn from_code(c: int) -> Option<ModsSearchSortField> {
        if c == 1 {
            Option::Some(ModsSearchSortField::Featured)
        } else if c == 2 {
            Option::Some(ModsSearchSortField::Popularity)
        } else if c == 3 {
            Option::Some(ModsSearchSortField::LastUpdated)
        } else if c == 4 {
            Option::Some(ModsSearchSortField::Name)
        } else if c == 5 {
            Option::Some(ModsSearchSortField::Author)
        } else if c == 6 {
            Option::Some(ModsSearchSortField::TotalDownloads)
        } else if c == 7 {
            Option::Some(ModsSearchSortField::Category)
        } else if c == 8 {
            Option::Some(ModsSearchSortField::GameVersion)
        } else if c == 9 {
            Option::Some(ModsSearchSortField::EarlyAccess)
        } else if c == 10 {
            Option::Some(ModsSearchSortField::FeaturedReleased)
        } else if c == 11 {
            Option::Some(ModsSearchSortField::ReleasedDate)
        } else if c == 12 {
            Option::Some(ModsSearchSortField::Rating)
        } else {
            Option::None
        }
    }

    pub fn to_code(self) -> (r: i64)
        ensures
            r as int == self.code(),
    {
        match self {
            ModsSearchSortField::Featured => 1,
            ModsSearchSortField::Popularity => 2,
            ModsSearchSortField::LastUpdated => 3,
            ModsSearchSortField::Name => 4,
            ModsSearchSortField::Author => 5,
            ModsSearchSortField::TotalDownloads => 6,
            ModsSearchSortField::Category => 7,
            ModsSearchSortField::GameVersion => 8,
            ModsSearchSortField::EarlyAccess => 9,
            ModsSearchSortField::FeaturedReleased => 10,
            ModsSearchSortField::ReleasedDate => 11,
            ModsSearchSortField::Rating => 12,
        }
    }

    pub fn decode(c: i64) -> (r: Option<ModsSearchSortField>)
        ensures
            r == ModsSearchSortField::from_code(c as int),
    {
        match c {
            1 => Option::Some(ModsSearchSortField::Featured),
            2 => Option::Some(ModsSearchSortField::Popularity),
            3 => Option::Some(ModsSearchSortField::LastUpdated),
            4 => Option::Some(ModsSearchSortField::Name),
            5 => Option::Some(ModsSearchSortField::Author),
            6 => Option::Some(ModsSearchSortField::TotalDownloads),
            7 => Option::Some(ModsSearchSortField::Category),
            8 => Option::Some(ModsSearchSortField::GameVersion),
            9 => Option::Some(ModsSearchSortField::EarlyAccess),
            10 => Option::Some(ModsSearchSortField::FeaturedReleased),
            11 => Option::Some(ModsSearchSortField::ReleasedDate),
            12 => Option::Some(ModsSearchSortField::Rating),
            _ => Option::None,
        }
    }

    /// The code of a variant decodes to that variant and to nothing else.
    pub proof fn lemma_code_inverse(self, c: int)
        ensures
            ModsSearchSortField::from_code(self.code()) == Option::Some(self),
            ModsSearchSortField::from_code(c) matches Option::Some(e) ==> e.code() == c,
    {
    }
}

#[derive(Debug, Clone, Copy, PartialEq, Eq, Structural)]
pub enum SortOrder {
    Asc,
    Desc,
}

impl SortOrder {
    /// The lower-case word that the remote schema uses for this variant.
    pub open spec fn rep(self) -> Seq<char> {
        match self {
            SortOrder::Asc => seq!['a', 's', 'c'],
            SortOrder::Desc => seq!['d', 'e', 's', 'c'],
        }
    }

    /// The variant of a word, if the word is documented.
    pub open spec fn from_rep(s: Seq<char>) -> Option<SortOrder> {
        if s == seq!['a', 's', 'c'] {
            Option::Some(SortOrder::Asc)
        } else if s == seq!['d', 'e', 's', 'c'] {
            Option::Some(SortOrder::Desc)
        } else {
            Option::None
        }
    }

    pub fn to_rep(self) -> (r: &'static str)
        ensures
            r@ == self.rep(),
    {
        match self {
            SortOrder::Asc => {
                let r = "asc";
                proof {
                    reveal_strlit("asc");
                    assert(r@ =~= self.rep());
                }
                r
            },
            SortOrder::Desc => {
                let r = "desc";
                proof {
                    reveal_strlit("desc");
                    assert(r@ =~= self.rep());
                }
                r
            },
        }
    }

    pub fn decode_rep(s: &str) -> (r: Option<SortOrder>)
        ensures
            r == SortOrder::from_rep(s@),
    {
        proof {
            reveal_strlit("asc");
            reveal_strlit("desc");
        }
        let sw = s.to_owned();
        if sw.eq(&"asc".to_owned()) {
            proof {
                assert(s@ =~= seq!['a', 's', 'c']);
            }
            Option::Some(SortOrder::Asc)
        } else if sw.eq(&"desc".to_owned()) {
            proof {
                assert(s@ =~= seq!['d', 'e', 's', 'c']);
            }
            Option::Some(SortOrder::Desc)
        } else {
            proof {
                assert("asc"@ =~= seq!['a', 's', 'c']);
                assert("desc"@ =~= seq!['d', 'e', 's', 'c']);
            }
            Option::None
        }
    }

    /// The word of a variant decodes to that variant and to nothing else.
    pub proof fn lemma_rep_inverse(self, s: Seq<char>)
        ensures
            SortOrder::from_rep(self.rep()) == Option::Some(self),
            SortOrder::from_rep(s) matches Option::Some(e) ==> e.rep() == s,
    {
        assert(seq!['a', 's', 'c'] != seq!['d', 'e', 's', 'c']);
    }
}

impl CoreStatus {
    /// The variant coded by an integer member under a key.
    pub open spec fn from_member(o: Seq<(Seq<char>, JsonV)>, key: Seq<char>) -> Option<CoreStatus> {
        match crate::fields::jv_int(o, key) {
            Option::Some(c) => CoreStatus::from_code(c),
            Option::None => Option::None,
        }
    }

    /// The optional variant coded by an integer member under a key:
    /// absent and null mean "not set".
    pub open spec fn opt_from_member(o: Seq<(Seq<char>, JsonV)>, key: Seq<char>) -> Option<
        Option<CoreStatus>,
    > {
        match crate::json::obj_get(o, key) {
            Option::None => Option::Some(Option::None),
            Option::Some(JsonV::Null) => Option::Some(Option::None),
            Option::Some(JsonV::Int(c)) => match CoreStatus::from_code(c) {
                Option::Some(e) => Option::Some(Option::Some(e)),
                Option::None => Option::None,
            },
            _ => Option::None,
        }
    }

    pub fn get_member(m: &JsonMembers, key: &str) -> (r: Option<CoreStatus>)
        ensures
            r == CoreStatus::from_member(m@, key@),
    {
        match crate::json::members_get(m, key) {
            Option::Some(j) => match j {
                Json::Int(c) => CoreStatus::decode(*c),
                _ => Option::None,
            },
            Option::None => Option::None,
        }
    }

    pub fn get_opt_member(m: &JsonMembers, key: &str) -> (r: Option<Option<CoreStatus>>)
        ensures
            r == CoreStatus::opt_from_member(m@, key@),
    {
        match crate::json::members_get(m, key) {
            Option::Some(j) => match j {
                Json::Null => Option::Some(Option::None),
                Json::Int(c) => match CoreStatus::decode(*c) {
                    Option::Some(e) => Option::Some(Option::Some(e)),
                    Option::None => Option::None,
                },
                _ => Option::None,
            },
            Option::None => Option::Some(Option::None),
        }
    }
}

impl CoreApiStatus {
    /// The variant coded by an integer member under a key.
    pub open spec fn from_member(o: Seq<(Seq<char>, JsonV)>, key: Seq<char>) -> Option<CoreApiStatus> {
        match crate::fields::jv_int(o, key) {
            Option::Some(c) => CoreApiStatus::from_code(c),
            Option::None => Option::None,
        }
    }

    /// The optional variant coded by an integer member under a key:
    /// absent and null mean "not set".
    pub open spec fn opt_from_member(o: Seq<(Seq<char>, JsonV)>, key: Seq<char>) -> Option<
        Option<CoreApiStatus>,
    > {
        match crate::json::obj_get(o, key) {
            Option::None => Option::Some(Option::None),
            Option::Some(JsonV::Null) => Option::Some(Option::None),
            Option::Some(JsonV::Int(c)) => match CoreApiStatus::from_code(c) {
                Option::Some(e) => Option::Some(Option::Some(e)),
                Option::None => Option::None,
            },
            _ => Option::None,
        }
    }

    pub fn get_member(m: &JsonMembers, key: &str) -> (r: Option<CoreApiStatus>)
        ensures
            r == CoreApiStatus::from_member(m@, key@),
    {
        match crate::json::members_get(m, key) {
            Option::Some(j) => match j {
                Json::Int(c) => CoreApiStatus::decode(*c),
                _ => Option::None,
            },
            Option::None => Option::None,
        }
    }

    pub fn get_opt_member(m: &JsonMembers, key: &str) -> (r: Option<Option<CoreApiStatus>>)
        ensures
            r == CoreApiStatus::opt_from_member(m@, key@),
    {
        match crate::json::members_get(m, key) {
            Option::Some(j) => match j {
                Json::Null => Option::Some(Option::None),
                Json::Int(c) => match CoreApiStatus::decode(*c) {
                    Option::Some(e) => Option::Some(Option::Some(e)),
                    Option::None => Option::None,
                },
                _ => Option::None,
            },
            Option::None => Option::Some(Option::None),
        }
    }
}

impl GameVersionStatus {
    /// The variant coded by an integer member under a key.
    pub open spec fn from_member(o: Seq<(Seq<char>, JsonV)>, key: Seq<char>) -> Option<GameVersionStatus> {
        match crate::fields::jv_int(o, key) {
            Option::Some(c) => GameVersionStatus::from_code(c),
            Option::None => Option::None,
        }
    }

    /// The optional variant coded by an integer member under a key:
    /// absent and null mean "not set".
    pub open spec fn opt_from_member(o: Seq<(Seq<char>, JsonV)>, key: Seq<char>) -> Option<
        Option<GameVersionStatus>,
    > {
        match crate::json::obj_get(o, key) {
            Option::None => Option::Some(Option::None),
            Option::Some(JsonV::Null) => Option::Some(Option::None),
            Option::Some(JsonV::Int(c)) => match GameVersionStatus::from_code(c) {
                Option::Some(e) => Option::Some(Option::Some(e)),
                Option::None => Option::None,
            },
            _ => Option::None,
        }
    }

    pub fn get_member(m: &JsonMembers, key: &str) -> (r: Option<GameVersionStatus>)
        ensures
            r == GameVersionStatus::from_member(m@, key@),
    {
        match crate::json::members_get(m, key) {
            Option::Some(j) => match j {
                Json::Int(c) => GameVersionStatus::decode(*c),
                _ => Option::None,
            },
            Option::None => Option::None,
        }
    }

    pub fn get_opt_member(m: &JsonMembers, key: &str) -> (r: Option<Option<GameVersionStatus>>)
        ensures
            r == GameVersionStatus::opt_from_member(m@, key@),
    {
        match crate::json::members_get(m, key) {
            Option::Some(j) => match j {
                Json::Null => Option::Some(Option::None),
                Json::Int(c) => match GameVersionStatus::decode(*c) {
                    Option::Some(e) => Option::Some(Option::Some(e)),
                    Option::None => Option::None,
                },
                _ => Option::None,
            },
            Option::None => Option::Some(Option::None),
        }
    }
}

impl GameVersionTypeStatus {
    /// The variant coded by an integer member under a key.
    pub open spec fn from_member(o: Seq<(Seq<char>, JsonV)>, key: Seq<char>) -> Option<GameVersionTypeStatus> {
        match crate::fields::jv_int(o, key) {
            Option::Some(c) => GameVersionTypeStatus::from_code(c),
            Option::None => Option::None,
        }
    }

    /// The optional variant coded by an integer member under a key:
    /// absent and null mean "not set".
    pub open spec fn opt_from_member(o: Seq<(Seq<char>, JsonV)>, key: Seq<char>) -> Option<
        Option<GameVersionTypeStatus>,
    > {
        match crate::json::obj_get(o, key) {
            Option::None => Option::Some(Option::None),
            Option::Some(JsonV::Null) => Option::Some(Option::None),
            Option::Some(JsonV::Int(c)) => match GameVersionTypeStatus::from_code(c) {
                Option::Some(e) => Option::Some(Option::Some(e)),
                Option::None => Option::None,
            },
            _ => Option::None,
        }
    }

    pub fn get_member(m: &JsonMembers, key: &str) -> (r: Option<GameVersionTypeStatus>)
        ensures
            r == GameVersionTypeStatus::from_member(m@, key@),
    {
        match crate::json::members_get(m, key) {
            Option::Some(j) => match j {
                Json::Int(c) => GameVersionTypeStatus::decode(*c),
                _ => Option::None,
            },
            Option::None => Option::None,
        }
    }

    pub fn get_opt_member(m: &JsonMembers, key: &str) -> (r: Option<Option<GameVersionTypeStatus>>)
        ensures
            r == GameVersionTypeStatus::opt_from_member(m@, key@),
    {
        match crate::json::members_get(m, key) {
            Option::Some(j) => match j {
                Json::Null => Option::Some(Option::None),
                Json::Int(c) => match GameVersionTypeStatus::decode(*c) {
                    Option::Some(e) => Option::Some(Option::Some(e)),
                    Option::None => Option::None,
                },
                _ => Option::None,
            },
            Option::None => Option::Some(Option::None),
        }
    }
}

impl ModStatus {
    /// The variant coded by an integer member under a key.
    pub open spec fn from_member(o: Seq<(Seq<char>, JsonV)>, key: Seq<char>) -> Option<ModStatus> {
        match crate::fields::jv_int(o, key) {
            Option::Some(c) => ModStatus::from_code(c),
            Option::None => Option::None,
        }
    }

    /// The optional variant coded by an integer member under a key:
    /// absent and null mean "not set".
    pub open spec fn opt_from_member(o: Seq<(Seq<char>, JsonV)>, key: Seq<char>) -> Option<
        Option<ModStatus>,
    > {
        match crate::json::obj_get(o, key) {
            Option::None => Option::Some(Option::None),
            Option::Some(JsonV::Null) => Option::Some(Option::None),
            Option::Some(JsonV::Int(c)) => match ModStatus::from_code(c) {
                Option::Some(e) => Option::Some(Option::Some(e)),
                Option::None => Option::None,
            },
            _ => Option::None,
        }
    }

    pub fn get_member(m: &JsonMembers, key: &str) -> (r: Option<ModStatus>)
        ensures
            r == ModStatus::from_member(m@, key@),
    {
        match crate::json::members_get(m, key) {
            Option::Some(j) => match j {
                Json::Int(c) => ModStatus::decode(*c),
                _ => Option::None,
            },
            Option::None => Option::None,
        }
    }

    pub fn get_opt_member(m: &JsonMembers, key: &str) -> (r: Option<Option<ModStatus>>)
        ensures
            r == ModStatus::opt_from_member(m@, key@),
    {
        match crate::json::members_get(m, key) {
            Option::Some(j) => match j {
                Json::Null => Option::Some(Option::None),
                Json::Int(c) => match ModStatus::decode(*c) {
                    Option::Some(e) => Option::Some(Option::Some(e)),
                    Option::None => Option::None,
                },
                _ => Option::None,
            },
            Option::None => Option::Some(Option::None),
        }
    }
}

impl FileReleaseType {
    /// The variant coded by an integer member under a key.
    pub open spec fn from_member(o: Seq<(Seq<char>, JsonV)>, key: Seq<char>) -> Option<FileReleaseType> {
        match crate::fields::jv_int(o, key) {
            Option::Some(c) => FileReleaseType::from_code(c),
            Option::None => Option::None,
        }
    }

    /// The optional variant coded by an integer member under a key:
    /// absent and null mean "not set".
    pub open spec fn opt_from_member(o: Seq<(Seq<char>, JsonV)>, key: Seq<char>) -> Option<
        Option<FileReleaseType>,
    > {
        match crate::json::obj_get(o, key) {
            Option::None => Option::Some(Option::None),
            Option::Some(JsonV::Null) => Option::Some(Option::None),
            Option::Some(JsonV::Int(c)) => match FileReleaseType::from_code(c) {
                Option::Some(e) => Option::Some(Option::Some(e)),
                Option::None => Option::None,
            },
            _ => Option::None,
        }
    }

    pub fn get_member(m: &JsonMembers, key: &str) -> (r: Option<FileReleaseType>)
        ensures
            r == FileReleaseType::from_member(m@, key@),
    {
        match crate::json::members_get(m, key) {
            Option::Some(j) => match j {
                Json::Int(c) => FileReleaseType::decode(*c),
                _ => Option::None,
            },
            Option::None => Option::None,
        }
    }

    pub fn get_opt_member(m: &JsonMembers, key: &str) -> (r: Option<Option<FileReleaseType>>)
        ensures
            r == FileReleaseType::opt_from_member(m@, key@),
    {
        match crate::json::members_get(m, key) {
            Option::Some(j) => match j {
                Json::Null => Option::Some(Option::None),
                Json::Int(c) => match FileReleaseType::decode(*c) {
                    Option::Some(e) => Option::Some(Option::Some(e)),
                    Option::None => Option::None,
                },
                _ => Option::None,
            },
            Option::None => Option::Some(Option::None),
        }
    }
}

impl FileStatus {
    /// The variant coded by an integer member under a key.
    pub open spec fn from_member(o: Seq<(Seq<char>, JsonV)>, key: Seq<char>) -> Option<FileStatus> {
        match crate::fields::jv_int(o, key) {
            Option::Some(c) => FileStatus::from_code(c),
            Option::None => Option::None,
        }
    }

    /// The optional variant coded by an integer member under a key:
    /// absent and null mean "not set".
    pub open spec fn opt_from_member(o: Seq<(Seq<char>, JsonV)>, key: Seq<char>) -> Option<
        Option<FileStatus>,
    > {
        match crate::json::obj_get(o, key) {
            Option::None => Option::Some(Option::None),
            Option::Some(JsonV::Null) => Option::Some(Option::None),
            Option::Some(JsonV::Int(c)) => match FileStatus::from_code(c) {
                Option::Some(e) => Option::Some(Option::Some(e)),
                Option::None => Option::None,
            },
            _ => Option::None,
        }
    }

    pub fn get_member(m: &JsonMembers, key: &str) -> (r: Option<FileStatus>)
        ensures
            r == FileStatus::from_member(m@, key@),
    {
        match crate::json::members_get(m, key) {
            Option::Some(j) => match j {
                Json::Int(c) => FileStatus::decode(*c),
                _ => Option::None,
            },
            Option::None => Option::None,
        }
    }

    pub fn get_opt_member(m: &JsonMembers, key: &str) -> (r: Option<Option<FileStatus>>)
        ensures
            r == FileStatus::opt_from_member(m@, key@),
    {
        match crate::json::members_get(m, key) {
            Option::Some(j) => match j {
                Json::Null => Option::Some(Option::None),
                Json::Int(c) => match FileStatus::decode(*c) {
                    Option::Some(e) => Option::Some(Option::Some(e)),
                    Option::None => Option::None,
                },
                _ => Option::None,
            },
            Option::None => Option::Some(Option::None),
        }
    }
}

impl FileRelationType {
    /// The variant coded by an integer member under a key.
    pub open spec fn from_member(o: Seq<(Seq<char>, JsonV)>, key: Seq<char>) -> Option<FileRelationType> {
        match crate::fields::jv_int(o, key) {
            Option::Some(c) => FileRelationType::from_code(c),
            Option::None => Option::None,
        }
    }

    /// The optional variant coded by an integer member under a key:
    /// absent and null mean "not set".
    pub open spec fn opt_from_member(o: Seq<(Seq<char>, JsonV)>, key: Seq<char>) -> Option<
        Option<FileRelationType>,
    > {
        match crate::json::obj_get(o, key) {
            Option::None => Option::Some(Option::None),
            Option::Some(JsonV::Null) => Option::Some(Option::None),
            Option::Some(JsonV::Int(c)) => match FileRelationType::from_code(c) {
                Option::Some(e) => Option::Some(Option::Some(e)),
                Option::None => Option::None,
            },
            _ => Option::None,
        }
    }

    pub fn get_member(m: &JsonMembers, key: &str) -> (r: Option<FileRelationType>)
        ensures
            r == FileRelationType::from_member(m@, key@),
    {
        match crate::json::members_get(m, key) {
            Option::Some(j) => match j {
                Json::Int(c) => FileRelationType::decode(*c),
                _ => Option::None,
            },
            Option::None => Option::None,
        }
    }

    pub fn get_opt_member(m: &JsonMembers, key: &str) -> (r: Option<Option<FileRelationType>>)
        ensures
            r == FileRelationType::opt_from_member(m@, key@),
    {
        match crate::json::members_get(m, key) {
            Option::Some(j) => match j {
                Json::Null => Option::Some(Option::None),
                Json::Int(c) => match FileRelationType::decode(*c) {
                    Option::Some(e) => Option::Some(Option::Some(e)),
                    Option::None => Option::None,
                },
                _ => Option::None,
            },
            Option::None => Option::Some(Option::None),
        }
    }
}

impl HashAlgo {
    /// The variant coded by an integer member under a key.
    pub open spec fn from_member(o: Seq<(Seq<char>, JsonV)>, key: Seq<char>) -> Option<HashAlgo> {
        match crate::fields::jv_int(o, key) {
            Option::Some(c) => HashAlgo::from_code(c),
            Option::None => Option::None,
        }
    }

    /// The optional variant coded by an integer member under a key:
    /// absent and null mean "not set".
    pub open spec fn opt_from_member(o: Seq<(Seq<char>, JsonV)>, key: Seq<char>) -> Option<
        Option<HashAlgo>,
    > {
        match crate::json::obj_get(o, key) {
            Option::None => Option::Some(Option::None),
            Option::Some(JsonV::Null) => Option::Some(Option::None),
            Option::Some(JsonV::Int(c)) => match HashAlgo::from_code(c) {
                Option::Some(e) => Option::Some(Option::Some(e)),
                Option::None => Option::None,
            },
            _ => Option::None,
        }
    }

    pub fn get_member(m: &JsonMembers, key: &str) -> (r: Option<HashAlgo>)
        ensures
            r == HashAlgo::from_member(m@, key@),
    {
        match crate::json::members_get(m, key) {
            Option::Some(j) => match j {
                Json::Int(c) => HashAlgo::decode(*c),
                _ => Option::None,
            },
            Option::None => Option::None,
        }
    }

    pub fn get_opt_member(m: &JsonMembers, key: &str) -> (r: Option<Option<HashAlgo>>)
        ensures
            r == HashAlgo::opt_from_member(m@, key@),
    {
        match crate::json::members_get(m, key) {
            Option::Some(j) => match j {
                Json::Null => Option::Some(Option::None),
                Json::Int(c) => match HashAlgo::decode(*c) {
                    Option::Some(e) => Option::Some(Option::Some(e)),
                    Option::None => Option::None,
                },
                _ => Option::None,
            },
            Option::None => Option::Some(Option::None),
        }
    }
}

impl ModLoaderType {
    /// The variant coded by an integer member under a key.
    pub open spec fn from_member(o: Seq<(Seq<char>, JsonV)>, key: Seq<char>) -> Option<ModLoaderType> {
        match crate::fields::jv_int(o, key) {
            Option::Some(c) => ModLoaderType::from_code(c),
            Option::None => Option::None,
        }
    }

    /// The optional variant coded by an integer member under a key:
    /// absent and null mean "not set".
    pub open spec fn opt_from_member(o: Seq<(Seq<char>, JsonV)>, key: Seq<char>) -> Option<
        Option<ModLoaderType>,
    > {
        match crate::json::obj_get(o, key) {
            Option::None => Option::Some(Option::None),
            Option::Some(JsonV::Null) => Option::Some(Option::None),
            Option::Some(JsonV::Int(c)) => match ModLoaderType::from_code(c) {
                Option::Some(e) => Option::Some(Option::Some(e)),
                Option::None => Option::None,
            },
            _ => Option::None,
        }
    }

    pub fn get_member(m: &JsonMembers, key: &str) -> (r: Option<ModLoaderType>)
        ensures
            r == ModLoaderType::from_member(m@, key@),
    {
        match crate::json::members_get(m, key) {
            Option::Some(j) => match j {
                Json::Int(c) => ModLoaderType::decode(*c),
                _ => Option::None,
            },
            Option::None => Option::None,
        }
    }

    pub fn get_opt_member(m: &JsonMembers, key: &str) -> (r: Option<Option<ModLoaderType>>)
        ensures
            r == ModLoaderType::opt_from_member(m@, key@),
    {
        match crate::json::members_get(m, key) {
            Option::Some(j) => match j {
                Json::Null => Option::Some(Option::None),
                Json::Int(c) => match ModLoaderType::decode(*c) {
                    Option::Some(e) => Option::Some(Option::Some(e)),
                    Option::None => Option::None,
                },
                _ => Option::None,
            },
            Option::None => Option::Some(Option::None),
        }
    }
}

impl ModLoaderInstallMethod {
    /// The variant coded by an integer member under a key.
    pub open spec fn from_member(o: Seq<(Seq<char>, JsonV)>, key: Seq<char>) -> Option<ModLoaderInstallMethod> {
        match crate::fields::jv_int(o, key) {
            Option::Some(c) => ModLoaderInstallMethod::from_code(c),
            Option::None => Option::None,
        }
    }

    /// The optional variant coded by an integer member under a key:
    /// absent and null mean "not set".
    pub open spec fn opt_from_member(o: Seq<(Seq<char>, JsonV)>, key: Seq<char>) -> Option<
        Option<ModLoaderInstallMethod>,
    > {
        match crate::json::obj_get(o, key) {
            Option::None => Option::Some(Option::None),
            Option::Some(JsonV::Null) => Option::Some(Option::None),
            Option::Some(JsonV::Int(c)) => match ModLoaderInstallMethod::from_code(c) {
                Option::Some(e) => Option::Some(Option::Some(e)),
                Option::None => Option::None,
            },
            _ => Option::None,
        }
    }

    pub fn get_member(m: &JsonMembers, key: &str) -> (r: Option<ModLoaderInstallMethod>)
        ensures
            r == ModLoaderInstallMethod::from_member(m@, key@),
    {
        match crate::json::members_get(m, key) {
            Option::Some(j) => match j {
                Json::Int(c) => ModLoaderInstallMethod::decode(*c),
                _ => Option::None,
            },
            Option::None => Option::None,
        }
    }

    pub fn get_opt_member(m: &JsonMembers, key: &str) -> (r: Option<Option<ModLoaderInstallMethod>>)
        ensures
            r == ModLoaderInstallMethod::opt_from_member(m@, key@),
    {
        match crate::json::members_get(m, key) {
            Option::Some(j) => match j {
                Json::Null => Option::Some(Option::None),
                Json::Int(c) => match ModLoaderInstallMethod::decode(*c) {
                    Option::Some(e) => Option::Some(Option::Some(e)),
                    Option::None => Option::None,
                },
                _ => Option::None,
            },
            Option::None => Option::Some(Option::None),
        }
    }
}

impl ModsSearchSortField {
    /// The variant coded by an integer member under a key.
    pub open spec fn from_member(o: Seq<(Seq<char>, JsonV)>, key: Seq<char>) -> Option<ModsSearchSortField> {
        match crate::fields::jv_int(o, key) {
            Option::Some(c) => ModsSearchSortField::from_code(c),
            Option::None => Option::None,
        }
    }

    /// The optional variant coded by an integer member under a key:
    /// absent and null mean "not set".
    pub open spec fn opt_from_member(o: Seq<(Seq<char>, JsonV)>, key: Seq<char>) -> Option<
        Option<ModsSearchSortField>,
    > {
        match crate::json::obj_get(o, key) {
            Option::None => Option::Some(Option::None),
            Option::Some(JsonV::Null) => Option::Some(Option::None),
            Option::Some(JsonV::Int(c)) => match ModsSearchSortField::from_code(c) {
                Option::Some(e) => Option::Some(Option::Some(e)),
                Option::None => Option::None,
            },
            _ => Option::None,
        }
    }

    pub fn get_member(m: &JsonMembers, key: &str) -> (r: Option<ModsSearchSortField>)
        ensures
            r == ModsSearchSortField::from_member(m@, key@),
    {
        match crate::json::members_get(m, key) {
            Option::Some(j) => match j {
                Json::Int(c) => ModsSearchSortField::decode(*c),
                _ => Option::None,
            },
            Option::None => Option::None,
        }
    }

    pub fn get_opt_member(m: &JsonMembers, key: &str) -> (r: Option<Option<ModsSearchSortField>>)
        ensures
            r == ModsSearchSortField::opt_from_member(m@, key@),
    {
        match crate::json::members_get(m, key) {
            Option::Some(j) => match j {
                Json::Null => Option::Some(Option::None),
                Json::Int(c) => match ModsSearchSortField::decode(*c) {
                    Option::Some(e) => Option::Some(Option::Some(e)),
                    Option::None => Option::None,
                },
                _ => Option::None,
            },
            Option::None => Option::Some(Option::None),
        }
    }
}

impl SortOrder {
    /// The optional variant named by a string member under a key:
    /// absent and null mean "not set".
    pub open spec fn opt_from_member(o: Seq<(Seq<char>, JsonV)>, key: Seq<char>) -> Option<
        Option<SortOrder>,
    > {
        match crate::json::obj_get(o, key) {
            Option::None => Option::Some(Option::None),
            Option::Some(JsonV::Null) => Option::Some(Option::None),
            Option::Some(JsonV::Str(s)) => match SortOrder::from_rep(s) {
                Option::Some(e) => Option::Some(Option::Some(e)),
                Option::None => Option::None,
            },
            _ => Option::None,
        }
    }

    pub fn get_opt_member(m: &JsonMembers, key: &str) -> (r: Option<Option<SortOrder>>)
        ensures
            r == SortOrder::opt_from_member(m@, key@),
    {
        match crate::json::members_get(m, key) {
            Option::Some(j) => match j {
                Json::Null => Option::Some(Option::None),
                Json::Str(s) => match SortOrder::decode_rep(s.as_str()) {
                    Option::Some(e) => Option::Some(Option::Some(e)),
                    Option::None => Option::None,
                },
                _ => Option::None,
            },
            Option::None => Option::Some(Option::None),
        }
    }
}

} // verus!
