//! Storage: the configuration of a project's storage and its buckets.

use crate::client::{project_path, project_resource, resource_call, Client};
use crate::decode::{member, required, Decode};
use crate::dispatch::Dispatch;
use crate::json::{Json, JsonValue};
use crate::request::Method;
use vstd::prelude::*;

verus! {

/// Whether images are transformed on the fly.
#[derive(Debug)]
pub struct ImageTransformation {
    pub enabled: bool,
}

impl DeepView for ImageTransformation {
    type V = ImageTransformation;

    open spec fn deep_view(&self) -> ImageTransformation {
        *self
    }
}

impl Clone for ImageTransformation {
    fn clone(&self) -> (copy: Self)
        ensures
            copy.deep_view() == self.deep_view(),
    {
        ImageTransformation {
            enabled: self.enabled,
        }
    }
}

impl Decode for ImageTransformation {
    open spec fn shape(json: JsonValue) -> Option<ImageTransformation> {
        if json is Object && member::<bool>(json, "enabled"@) is Some {
            Some(ImageTransformation { enabled: member::<bool>(json, "enabled"@)->0 })
        } else {
            None
        }
    }

    open spec fn name() -> Seq<char> {
        "ImageTransformation"@
    }

    fn target_name() -> (name: String) {
        String::from_str("ImageTransformation")
    }

    fn decode(json: &Json) -> (decoded: Option<ImageTransformation>) {
        match json {
            Json::Object(_) => {},
            _ => {
                return None;
            },
        }
        let enabled = required::<bool>(json, "enabled")?;
        Some(ImageTransformation { enabled })
    }
}

/// Whether the storage speaks the S3 protocol.
#[derive(Debug)]
pub struct S3Protocol {
    pub enabled: bool,
}

impl DeepView for S3Protocol {
    type V = S3Protocol;

    open spec fn deep_view(&self) -> S3Protocol {
        *self
    }
}

impl Clone for S3Protocol {
    fn clone(&self) -> (copy: Self)
        ensures
            copy.deep_view() == self.deep_view(),
    {
        S3Protocol {
            enabled: self.enabled,
        }
    }
}

impl Decode for S3Protocol {
    open spec fn shape(json: JsonValue) -> Option<S3Protocol> {
        if json is Object && member::<bool>(json, "enabled"@) is Some {
            Some(S3Protocol { enabled: member::<bool>(json, "enabled"@)->0 })
        } else {
            None
        }
    }

    open spec fn name() -> Seq<char> {
        "S3Protocol"@
    }

    fn target_name() -> (name: String) {
        String::from_str("S3Protocol")
    }

    fn decode(json: &Json) -> (decoded: Option<S3Protocol>) {
        match json {
            Json::Object(_) => {},
            _ => {
                return None;
            },
        }
        let enabled = required::<bool>(json, "enabled")?;
        Some(S3Protocol { enabled })
    }
}

/// The features of a project's storage. On the wire the members are called
/// `imageTransformation` and `s3Protocol`.
#[derive(Debug)]
pub struct Features {
    pub image_transformation: ImageTransformation,
    pub s3protocol: S3Protocol,
}

impl DeepView for Features {
    type V = Features;

    open spec fn deep_view(&self) -> Features {
        *self
    }
}

impl Clone for Features {
    fn clone(&self) -> (copy: Self)
        ensures
            copy.deep_view() == self.deep_view(),
    {
        Features {
            image_transformation: self.image_transformation.clone(),
            s3protocol: self.s3protocol.clone(),
        }
    }
}

impl Decode for Features {
    open spec fn shape(json: JsonValue) -> Option<Features> {
        if json is Object && member::<ImageTransformation>(json, "imageTransformation"@) is Some
            && member::<S3Protocol>(json, "s3Protocol"@) is Some {
            Some(
                Features {
                    image_transformation: member::<ImageTransformation>(
                        json,
                        "imageTransformation"@,
                    )->0,
                    s3protocol: member::<S3Protocol>(json, "s3Protocol"@)->0,
                },
            )
        } else {
            None
        }
    }

    open spec fn name() -> Seq<char> {
        "Features"@
    }

    fn target_name() -> (name: String) {
        String::from_str("Features")
    }

    fn decode(json: &Json) -> (decoded: Option<Features>) {
        match json {
            Json::Object(_) => {},
            _ => {
                return None;
            },
        }
        let image_transformation = required::<ImageTransformation>(json, "imageTransformation")?;
        let s3protocol = required::<S3Protocol>(json, "s3Protocol")?;
        Some(Features { image_transformation, s3protocol })
    }
}

/// The configuration of a project's storage. On the wire the members are
/// called `fileSizeLimit` and `features`.
#[derive(Debug)]
pub struct StorageConfig {
    pub file_size_limit: i64,
    pub features: Features,
}

impl DeepView for StorageConfig {
    type V = StorageConfig;

    open spec fn deep_view(&self) -> StorageConfig {
        *self
    }
}

impl Clone for StorageConfig {
    fn clone(&self) -> (copy: Self)
        ensures
            copy.deep_view() == self.deep_view(),
    {
        StorageConfig {
            file_size_limit: self.file_size_limit,
            features: self.features.clone(),
        }
    }
}

impl Decode for StorageConfig {
    open spec fn shape(json: JsonValue) -> Option<StorageConfig> {
        if json is Object && member::<i64>(json, "fileSizeLimit"@) is Some && member::<Features>(
            json,
            "features"@,
        ) is Some {
            Some(
                StorageConfig {
                    file_size_limit: member::<i64>(json, "fileSizeLimit"@)->0,
                    features: member::<Features>(json, "features"@)->0,
                },
            )
        } else {
            None
        }
    }

    open spec fn name() -> Seq<char> {
        "StorageConfig"@
    }

    fn target_name() -> (name: String) {
        String::from_str("StorageConfig")
    }

    fn decode(json: &Json) -> (decoded: Option<StorageConfig>) {
        match json {
            Json::Object(_) => {},
            _ => {
                return None;
            },
        }
        let file_size_limit = required::<i64>(json, "fileSizeLimit")?;
        let features = required::<Features>(json, "features")?;
        Some(StorageConfig { file_size_limit, features })
    }
}

/// A storage bucket.
#[derive(Debug)]
pub struct Bucket {
    pub id: String,
    pub name: String,
    pub owner: String,
    pub created_at: String,
    pub updated_at: String,
    pub public: bool,
}

/// The mathematical value of a [`Bucket`].
pub struct BucketView {
    pub id: Seq<char>,
    pub name: Seq<char>,
    pub owner: Seq<char>,
    pub created_at: Seq<char>,
    pub updated_at: Seq<char>,
    pub public: bool,
}

impl DeepView for Bucket {
    type V = BucketView;

    open spec fn deep_view(&self) -> BucketView {
        BucketView {
            id: self.id@,
            name: self.name@,
            owner: self.owner@,
            created_at: self.created_at@,
            updated_at: self.updated_at@,
            public: self.public,
        }
    }
}

impl Clone for Bucket {
    fn clone(&self) -> (copy: Self)
        ensures
            copy.deep_view() == self.deep_view(),
    {
        Bucket {
            id: self.id.clone(),
            name: self.name.clone(),
            owner: self.owner.clone(),
            created_at: self.created_at.clone(),
            updated_at: self.updated_at.clone(),
            public: self.public,
        }
    }
}

impl Decode for Bucket {
    open spec fn shape(json: JsonValue) -> Option<BucketView> {
        if json is Object && member::<String>(json, "id"@) is Some && member::<String>(
            json,
            "name"@,
        ) is Some && member::<String>(json, "owner"@) is Some && member::<String>(
            json,
            "created_at"@,
        ) is Some && member::<String>(json, "updated_at"@) is Some && member::<bool>(
            json,
            "public"@,
        ) is Some {
            Some(
                BucketView {
                    id: member::<String>(json, "id"@)->0,
                    name: member::<String>(json, "name"@)->0,
                    owner: member::<String>(json, "owner"@)->0,
                    created_at: member::<String>(json, "created_at"@)->0,
                    updated_at: member::<String>(json, "updated_at"@)->0,
                    public: member::<bool>(json, "public"@)->0,
                },
            )
        } else {
            None
        }
    }

    open spec fn name() -> Seq<char> {
        "Bucket"@
    }

    fn target_name() -> (name: String) {
        String::from_str("Bucket")
    }

    fn decode(json: &Json) -> (decoded: Option<Bucket>) {
        match json {
            Json::Object(_) => {},
            _ => {
                return None;
            },
        }
        let id = required::<String>(json, "id")?;
        let name = required::<String>(json, "name")?;
        let owner = required::<String>(json, "owner")?;
        let created_at = required::<String>(json, "created_at")?;
        let updated_at = required::<String>(json, "updated_at")?;
        let public = required::<bool>(json, "public")?;
        Some(Bucket { id, name, owner, created_at, updated_at, public })
    }
}

impl Client {
    /// Asks for the configuration of a project's storage.
    pub fn get_storage_config(&self, project_id: &str) -> (dispatch: Dispatch<StorageConfig>)
        ensures
            dispatch@ == resource_call(
                self@,
                Method::Get,
                project_resource(project_id@, "/config/storage"@),
                None,
            ),
    {
        let path = project_path(project_id, "/config/storage");
        self.get(path.as_str())
    }

    /// Lists the storage buckets of a project.
    pub fn list_buckets(&self, project_id: &str) -> (dispatch: Dispatch<Vec<Bucket>>)
        ensures
            dispatch@ == resource_call(
                self@,
                Method::Get,
                project_resource(project_id@, "/storage/buckets"@),
                None,
            ),
    {
        let path = project_path(project_id, "/storage/buckets");
        self.get(path.as_str())
    }
}

} // verus!
