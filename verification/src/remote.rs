//! The requests and responses of the remote block-storage service, as plain
//! values. The caller sends each request and records what came back.

use crate::tags::{Tag, TagModel};
use vstd::prelude::*;

verus! {

/// One clause of a discovery query: a property and the values accepted for it.
#[derive(Debug, PartialEq, Eq)]
pub struct Filter {
    pub name: String,
    pub values: Vec<String>,
}

/// What a [`Filter`] stands for.
pub struct FilterModel {
    pub name: Seq<char>,
    pub values: Seq<Seq<char>>,
}

impl DeepView for Filter {
    type V = FilterModel;

    open spec fn deep_view(&self) -> FilterModel {
        FilterModel { name: self.name@, values: self.values.deep_view() }
    }
}

impl View for Filter {
    type V = FilterModel;

    open spec fn view(&self) -> FilterModel {
        self.deep_view()
    }
}

/// A query for volumes: by filter clauses, by volume ids, or both.
#[derive(Debug, PartialEq, Eq)]
pub struct DescribeVolumesRequest {
    pub filters: Vec<Filter>,
    pub volume_ids: Vec<String>,
}

/// What a [`DescribeVolumesRequest`] stands for.
pub struct DescribeVolumesRequestModel {
    pub filters: Seq<FilterModel>,
    pub volume_ids: Seq<Seq<char>>,
}

impl DeepView for DescribeVolumesRequest {
    type V = DescribeVolumesRequestModel;

    open spec fn deep_view(&self) -> DescribeVolumesRequestModel {
        DescribeVolumesRequestModel {
            filters: self.filters.deep_view(),
            volume_ids: self.volume_ids.deep_view(),
        }
    }
}

impl View for DescribeVolumesRequest {
    type V = DescribeVolumesRequestModel;

    open spec fn view(&self) -> DescribeVolumesRequestModel {
        self.deep_view()
    }
}

/// The record that ties a volume to an instance.
#[derive(Debug, PartialEq, Eq)]
pub struct Attachment {
    /// The state as the service words it, where it reports one.
    pub state: Option<String>,
}

/// What an [`Attachment`] stands for.
pub struct AttachmentModel {
    pub state: Option<Seq<char>>,
}

impl DeepView for Attachment {
    type V = AttachmentModel;

    open spec fn deep_view(&self) -> AttachmentModel {
        AttachmentModel { state: self.state.deep_view() }
    }
}

impl View for Attachment {
    type V = AttachmentModel;

    open spec fn view(&self) -> AttachmentModel {
        self.deep_view()
    }
}

/// A volume as the service describes it.
#[derive(Debug, PartialEq, Eq)]
pub struct Volume {
    pub volume_id: String,
    pub attachments: Vec<Attachment>,
}

/// What a [`Volume`] stands for.
pub struct VolumeModel {
    pub volume_id: Seq<char>,
    pub attachments: Seq<AttachmentModel>,
}

impl DeepView for Volume {
    type V = VolumeModel;

    open spec fn deep_view(&self) -> VolumeModel {
        VolumeModel { volume_id: self.volume_id@, attachments: self.attachments.deep_view() }
    }
}

impl View for Volume {
    type V = VolumeModel;

    open spec fn view(&self) -> VolumeModel {
        self.deep_view()
    }
}

/// One page of the answer to a [`DescribeVolumesRequest`].
#[derive(Debug, PartialEq, Eq)]
pub struct DescribeVolumesResponse {
    /// The volumes on this page, in the order the service gave them.
    pub volumes: Vec<Volume>,
    /// Whether the service holds further pages back.
    pub more_pages: bool,
}

/// What a [`DescribeVolumesResponse`] stands for.
pub struct DescribeVolumesResponseModel {
    pub volumes: Seq<VolumeModel>,
    pub more_pages: bool,
}

impl DeepView for DescribeVolumesResponse {
    type V = DescribeVolumesResponseModel;

    open spec fn deep_view(&self) -> DescribeVolumesResponseModel {
        DescribeVolumesResponseModel {
            volumes: self.volumes.deep_view(),
            more_pages: self.more_pages,
        }
    }
}

impl View for DescribeVolumesResponse {
    type V = DescribeVolumesResponseModel;

    open spec fn view(&self) -> DescribeVolumesResponseModel {
        self.deep_view()
    }
}

/// A request to attach one volume to one instance under one device path.
#[derive(Debug, PartialEq, Eq)]
pub struct AttachmentRequest {
    pub volume_id: String,
    pub instance_id: String,
    pub device: String,
}

/// What an [`AttachmentRequest`] stands for.
pub struct AttachmentRequestModel {
    pub volume_id: Seq<char>,
    pub instance_id: Seq<char>,
    pub device: Seq<char>,
}

impl DeepView for AttachmentRequest {
    type V = AttachmentRequestModel;

    open spec fn deep_view(&self) -> AttachmentRequestModel {
        AttachmentRequestModel {
            volume_id: self.volume_id@,
            instance_id: self.instance_id@,
            device: self.device@,
        }
    }
}

impl View for AttachmentRequest {
    type V = AttachmentRequestModel;

    open spec fn view(&self) -> AttachmentRequestModel {
        self.deep_view()
    }
}

/// A request for a new volume.
#[derive(Debug, PartialEq, Eq)]
pub struct CreateVolumeRequest {
    pub availability_zone: String,
    pub size: i32,
    pub volume_type: String,
}

/// What a [`CreateVolumeRequest`] stands for.
pub struct CreateVolumeRequestModel {
    pub availability_zone: Seq<char>,
    pub size: int,
    pub volume_type: Seq<char>,
}

impl DeepView for CreateVolumeRequest {
    type V = CreateVolumeRequestModel;

    open spec fn deep_view(&self) -> CreateVolumeRequestModel {
        CreateVolumeRequestModel {
            availability_zone: self.availability_zone@,
            size: self.size as int,
            volume_type: self.volume_type@,
        }
    }
}

impl View for CreateVolumeRequest {
    type V = CreateVolumeRequestModel;

    open spec fn view(&self) -> CreateVolumeRequestModel {
        self.deep_view()
    }
}

/// A request to put tags on a volume.
#[derive(Debug, PartialEq, Eq)]
pub struct CreateTagsRequest {
    pub volume_id: String,
    pub tags: Vec<Tag>,
}

/// What a [`CreateTagsRequest`] stands for.
pub struct CreateTagsRequestModel {
    pub volume_id: Seq<char>,
    pub tags: Seq<TagModel>,
}

impl DeepView for CreateTagsRequest {
    type V = CreateTagsRequestModel;

    open spec fn deep_view(&self) -> CreateTagsRequestModel {
        CreateTagsRequestModel { volume_id: self.volume_id@, tags: self.tags.deep_view() }
    }
}

impl View for CreateTagsRequest {
    type V = CreateTagsRequestModel;

    open spec fn view(&self) -> CreateTagsRequestModel {
        self.deep_view()
    }
}

} // verus!
