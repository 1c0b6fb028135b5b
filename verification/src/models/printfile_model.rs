//! Print files: the stored record, its view, and the kinds of file and of
//! storage.

use vstd::prelude::*;
use crate::models::view_model::ViewModel;

verus! {

/// A print file as stored.
#[derive(Clone, Debug, PartialEq, Eq)]
pub struct PrintFileDbModel {
    pub uuid: String,
    pub user_uuid: String,
    pub name: String,
    pub path: String,
    pub size: i32,
    pub checksum: String,
    pub file_type: String,
    pub file_storage_type: String,
    pub created_at: String,
}

/// A print file as shown: never the path it is stored under.
#[derive(Clone, Debug, PartialEq, Eq)]
pub struct PrintFileViewModel {
    pub uuid: String,
    pub user_uuid: String,
    pub name: String,
    pub size: i32,
    pub checksum: String,
    pub file_type: String,
    pub file_storage_type: String,
    pub created_at: String,
}

/// The kind of a print file.
#[derive(Clone, Copy, Debug, PartialEq, Eq, Structural)]
pub enum FileType {
    Gcode,
    Stl,
    Obj,
    Amf,
    Unknown,
}

/// Where a print file is kept.
#[derive(Clone, Copy, Debug, PartialEq, Eq, Structural)]
pub enum FileStorageType {
    Local,
    S3,
}

impl FileType {
    /// The name the kind is stored under.
    pub open spec fn name_text(self) -> Seq<char> {
        match self {
            FileType::Gcode => "Gcode"@,
            FileType::Stl => "Stl"@,
            FileType::Obj => "Obj"@,
            FileType::Amf => "Amf"@,
            FileType::Unknown => "Unknown"@,
        }
    }

    /// The name the kind is stored under.
    pub fn name(&self) -> (name: String)
        ensures
            name@ == self.name_text(),
    {
        match self {
            FileType::Gcode => "Gcode".to_string(),
            FileType::Stl => "Stl".to_string(),
            FileType::Obj => "Obj".to_string(),
            FileType::Amf => "Amf".to_string(),
            FileType::Unknown => "Unknown".to_string(),
        }
    }
}

impl FileStorageType {
    /// The name the kind is stored under.
    pub open spec fn name_text(self) -> Seq<char> {
        match self {
            FileStorageType::Local => "Local"@,
            FileStorageType::S3 => "S3"@,
        }
    }

    /// The name the kind is stored under.
    pub fn name(&self) -> (name: String)
        ensures
            name@ == self.name_text(),
    {
        match self {
            FileStorageType::Local => "Local".to_string(),
            FileStorageType::S3 => "S3".to_string(),
        }
    }
}

impl ViewModel for PrintFileDbModel {
    type Model = PrintFileViewModel;

    open spec fn shown_as(&self, model: &PrintFileViewModel) -> bool {
        &&& model.uuid@ == self.uuid@
        &&& model.user_uuid@ == self.user_uuid@
        &&& model.name@ == self.name@
        &&& model.size == self.size
        &&& model.checksum@ == self.checksum@
        &&& model.file_type@ == self.file_type@
        &&& model.file_storage_type@ == self.file_storage_type@
        &&& model.created_at@ == self.created_at@
    }

    fn to_viewmodel(&self) -> (model: PrintFileViewModel) {
        PrintFileViewModel {
            uuid: self.uuid.clone(),
            user_uuid: self.user_uuid.clone(),
            name: self.name.clone(),
            size: self.size,
            checksum: self.checksum.clone(),
            file_type: self.file_type.clone(),
            file_storage_type: self.file_storage_type.clone(),
            created_at: self.created_at.clone(),
        }
    }
}

} // verus!
