use vstd::prelude::*;

verus! {

/// The metadata record of an uploaded file.
#[derive(Debug)]
pub struct FileEntity {
    /// The public id, used in retrieval URLs.
    pub id: String,
    /// The key of the blob in the blob store.
    pub storage_id: String,
    /// The token that authorizes deletion.
    pub secret: String,
    /// Milliseconds since the Unix epoch at insert time.
    pub uploaded_at: i64,
    /// The length of the stored payload in bytes.
    pub size: i64,
}

/// The metadata record of an uploaded image; it has the shape of a file's.
#[derive(Debug)]
pub struct ImageEntity {
    pub id: String,
    pub storage_id: String,
    pub secret: String,
    pub uploaded_at: i64,
    pub size: i64,
}

/// What a record says, as mathematical values.
pub struct EntityView {
    pub id: Seq<char>,
    pub storage_id: Seq<char>,
    pub secret: Seq<char>,
    pub uploaded_at: int,
    pub size: int,
}

impl View for FileEntity {
    type V = EntityView;

    open spec fn view(&self) -> EntityView {
        EntityView {
            id: self.id@,
            storage_id: self.storage_id@,
            secret: self.secret@,
            uploaded_at: self.uploaded_at as int,
            size: self.size as int,
        }
    }
}

impl View for ImageEntity {
    type V = EntityView;

    open spec fn view(&self) -> EntityView {
        EntityView {
            id: self.id@,
            storage_id: self.storage_id@,
            secret: self.secret@,
            uploaded_at: self.uploaded_at as int,
            size: self.size as int,
        }
    }
}

impl FileEntity {
    /// A copy of the record.
    pub fn duplicate(&self) -> (r: FileEntity)
        ensures
            r@ == self@,
    {
        FileEntity {
            id: self.id.clone(),
            storage_id: self.storage_id.clone(),
            secret: self.secret.clone(),
            uploaded_at: self.uploaded_at,
            size: self.size,
        }
    }
}

impl From<ImageEntity> for FileEntity {
    fn from(image: ImageEntity) -> (r: FileEntity)
        ensures
            r@ == image@,
    {
        FileEntity {
            id: image.id,
            storage_id: image.storage_id,
            secret: image.secret,
            uploaded_at: image.uploaded_at,
            size: image.size,
        }
    }
}

impl vstd::std_specs::convert::FromSpecImpl<ImageEntity> for FileEntity {
    open spec fn obeys_from_spec() -> bool {
        true
    }

    open spec fn from_spec(image: ImageEntity) -> FileEntity {
        FileEntity {
            id: image.id,
            storage_id: image.storage_id,
            secret: image.secret,
            uploaded_at: image.uploaded_at,
            size: image.size,
        }
    }
}

} // verus!
