use vstd::prelude::*;

verus! {

/// The kinds of media.
#[derive(Debug, Clone, Copy, PartialEq, Eq, Structural)]
pub enum MediumType {
    Photo,
    Video,
    LivePhoto,
    Vector,
    Sequence,
    Gif,
    Other,
}

/// The kinds of items of a medium.
#[derive(Debug, Clone, Copy, PartialEq, Eq, Structural)]
pub enum MediumItemType {
    Original,
    Edit,
    Preview,
    Sidecar,
}

/// API form of [`MediumType`].
#[derive(Debug, Clone, Copy, PartialEq, Eq, Structural)]
pub enum MediumTypeDto {
    Photo,
    Video,
    LivePhoto,
    Vector,
    Sequence,
    Gif,
    Other,
}

/// API form of [`MediumItemType`].
#[derive(Debug, Clone, Copy, PartialEq, Eq, Structural)]
pub enum MediumItemTypeDto {
    Original,
    Edit,
    Preview,
    Sidecar,
}

/// API form of a storage tier.
#[derive(Debug, Clone, Copy, PartialEq, Eq, Structural)]
pub enum StorageTierDto {
    Permanent,
    Temporary,
    Cache,
}

/// API form of a file location.
#[derive(Debug)]
pub struct FileLocationDto {
    pub storage_tier: StorageTierDto,
    pub relative_path: String,
}

pub open spec fn medium_type_to_dto(mt: MediumType) -> MediumTypeDto {
    match mt {
        MediumType::Photo => MediumTypeDto::Photo,
        MediumType::Video => MediumTypeDto::Video,
        MediumType::LivePhoto => MediumTypeDto::LivePhoto,
        MediumType::Vector => MediumTypeDto::Vector,
        MediumType::Sequence => MediumTypeDto::Sequence,
        MediumType::Gif => MediumTypeDto::Gif,
        MediumType::Other => MediumTypeDto::Other,
    }
}

pub open spec fn dto_to_medium_type(dto: MediumTypeDto) -> MediumType {
    match dto {
        MediumTypeDto::Photo => MediumType::Photo,
        MediumTypeDto::Video => MediumType::Video,
        MediumTypeDto::LivePhoto => MediumType::LivePhoto,
        MediumTypeDto::Vector => MediumType::Vector,
        MediumTypeDto::Sequence => MediumType::Sequence,
        MediumTypeDto::Gif => MediumType::Gif,
        MediumTypeDto::Other => MediumType::Other,
    }
}

pub open spec fn item_type_to_dto(mit: MediumItemType) -> MediumItemTypeDto {
    match mit {
        MediumItemType::Original => MediumItemTypeDto::Original,
        MediumItemType::Edit => MediumItemTypeDto::Edit,
        MediumItemType::Preview => MediumItemTypeDto::Preview,
        MediumItemType::Sidecar => MediumItemTypeDto::Sidecar,
    }
}

impl From<MediumType> for MediumTypeDto {
    fn from(mt: MediumType) -> (r: Self) {
        match mt {
            MediumType::Photo => MediumTypeDto::Photo,
            MediumType::Video => MediumTypeDto::Video,
            MediumType::LivePhoto => MediumTypeDto::LivePhoto,
            MediumType::Vector => MediumTypeDto::Vector,
            MediumType::Sequence => MediumTypeDto::Sequence,
            MediumType::Gif => MediumTypeDto::Gif,
            MediumType::Other => MediumTypeDto::Other,
        }
    }
}

impl vstd::std_specs::convert::FromSpecImpl<MediumType> for MediumTypeDto {
    open spec fn obeys_from_spec() -> bool {
        true
    }

    open spec fn from_spec(v: MediumType) -> Self {
        medium_type_to_dto(v)
    }
}

impl From<MediumTypeDto> for MediumType {
    fn from(dto: MediumTypeDto) -> (r: Self) {
        match dto {
            MediumTypeDto::Photo => MediumType::Photo,
            MediumTypeDto::Video => MediumType::Video,
            MediumTypeDto::LivePhoto => MediumType::LivePhoto,
            MediumTypeDto::Vector => MediumType::Vector,
            MediumTypeDto::Sequence => MediumType::Sequence,
            MediumTypeDto::Gif => MediumType::Gif,
            MediumTypeDto::Other => MediumType::Other,
        }
    }
}

impl vstd::std_specs::convert::FromSpecImpl<MediumTypeDto> for MediumType {
    open spec fn obeys_from_spec() -> bool {
        true
    }

    open spec fn from_spec(v: MediumTypeDto) -> Self {
        dto_to_medium_type(v)
    }
}

impl From<MediumItemType> for MediumItemTypeDto {
    fn from(mit: MediumItemType) -> (r: Self) {
        match mit {
            MediumItemType::Original => MediumItemTypeDto::Original,
            MediumItemType::Edit => MediumItemTypeDto::Edit,
            MediumItemType::Preview => MediumItemTypeDto::Preview,
            MediumItemType::Sidecar => MediumItemTypeDto::Sidecar,
        }
    }
}

impl vstd::std_specs::convert::FromSpecImpl<MediumItemType> for MediumItemTypeDto {
    open spec fn obeys_from_spec() -> bool {
        true
    }

    open spec fn from_spec(v: MediumItemType) -> Self {
        item_type_to_dto(v)
    }
}

/// Converting a medium type to its API form and back gives it back, and
/// the API form round-trips the same way.
pub proof fn lemma_medium_type_round_trip(mt: MediumType, dto: MediumTypeDto)
    ensures
        dto_to_medium_type(medium_type_to_dto(mt)) == mt,
        medium_type_to_dto(dto_to_medium_type(dto)) == dto,
{
}

/// Each medium type maps to the API variant of the same name, and back.
pub proof fn lemma_medium_type_names()
    ensures
        medium_type_to_dto(MediumType::Photo) == MediumTypeDto::Photo,
        medium_type_to_dto(MediumType::Video) == MediumTypeDto::Video,
        medium_type_to_dto(MediumType::LivePhoto) == MediumTypeDto::LivePhoto,
        medium_type_to_dto(MediumType::Vector) == MediumTypeDto::Vector,
        medium_type_to_dto(MediumType::Sequence) == MediumTypeDto::Sequence,
        medium_type_to_dto(MediumType::Gif) == MediumTypeDto::Gif,
        medium_type_to_dto(MediumType::Other) == MediumTypeDto::Other,
        dto_to_medium_type(MediumTypeDto::Photo) == MediumType::Photo,
        dto_to_medium_type(MediumTypeDto::Video) == MediumType::Video,
        dto_to_medium_type(MediumTypeDto::LivePhoto) == MediumType::LivePhoto,
        dto_to_medium_type(MediumTypeDto::Vector) == MediumType::Vector,
        dto_to_medium_type(MediumTypeDto::Sequence) == MediumType::Sequence,
        dto_to_medium_type(MediumTypeDto::Gif) == MediumType::Gif,
        dto_to_medium_type(MediumTypeDto::Other) == MediumType::Other,
{
}

/// Each medium item type maps to the API variant of the same name.
pub proof fn lemma_item_type_names()
    ensures
        item_type_to_dto(MediumItemType::Original) == MediumItemTypeDto::Original,
        item_type_to_dto(MediumItemType::Edit) == MediumItemTypeDto::Edit,
        item_type_to_dto(MediumItemType::Preview) == MediumItemTypeDto::Preview,
        item_type_to_dto(MediumItemType::Sidecar) == MediumItemTypeDto::Sidecar,
{
}

} // verus!
