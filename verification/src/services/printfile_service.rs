//! Print files: the record that an upload creates, and what the lookups
//! and writes amount to for the caller.

use vstd::prelude::*;
use crate::common::app_error::{AppError, HttpStatus};
use crate::common::clock;
use crate::common::ident::random_uuid;
use crate::common::text::{decimal, decimal_text};
use crate::models::printfile_model::{FileType, PrintFileDbModel};

verus! {

/// What `sha2::Sha256::digest` gives for the data, written in lower-case
/// hexadecimal.
pub uninterp spec fn sha256_hex(data: Seq<u8>) -> Seq<char>;

/// Wraps `sha2::Sha256::digest` and the `LowerHex` form of its output. The
/// text is the one that `sha256_hex` names.
#[verifier::external_body]
fn digest_hex(data: &[u8]) -> (text: String)
    ensures
        text@ == sha256_hex(data@),
{
    format!("{:x}", <sha2::Sha256 as sha2::Digest>::digest(data))
}

/// The checksum stored with a file: the SHA-256 of its content.
pub fn checksum(data: &[u8]) -> (text: String)
    ensures
        text@ == sha256_hex(data@),
{
    digest_hex(data)
}

/// The size stored with a file: the number of its bytes, cut to 32 bits.
pub fn stored_size(data: &[u8]) -> (size: i32)
    ensures
        size == data@.len() as i32,
{
    #[verifier::truncate]
    (data.len() as i32)
}

/// The record of an uploaded file, given its identifier and the time. Every
/// upload is taken for G-code.
pub fn new_printfile_with(
    user_uuid: &str,
    filename: &str,
    filepath: &str,
    filesize: i32,
    sha256: &str,
    file_storage_type: &str,
    uuid: String,
    now: u64,
) -> (model: PrintFileDbModel)
    ensures
        model.uuid@ == uuid@,
        model.user_uuid@ == user_uuid@,
        model.name@ == filename@,
        model.path@ == filepath@,
        model.size == filesize,
        model.checksum@ == sha256@,
        model.file_type@ == FileType::Gcode.name_text(),
        model.file_storage_type@ == file_storage_type@,
        model.created_at@ == decimal_text(now as nat),
{
    PrintFileDbModel {
        uuid,
        user_uuid: user_uuid.to_string(),
        name: filename.to_string(),
        path: filepath.to_string(),
        size: filesize,
        checksum: sha256.to_string(),
        file_type: FileType::Gcode.name(),
        file_storage_type: file_storage_type.to_string(),
        created_at: decimal(now),
    }
}

/// The record of an uploaded file: a fresh identifier and the time the
/// clock shows.
pub fn new_printfile(
    user_uuid: &str,
    filename: &str,
    filepath: &str,
    filesize: i32,
    sha256: &str,
    file_storage_type: &str,
) -> (model: PrintFileDbModel)
    ensures
        model.user_uuid@ == user_uuid@,
        model.name@ == filename@,
        model.path@ == filepath@,
        model.size == filesize,
        model.checksum@ == sha256@,
        model.file_type@ == FileType::Gcode.name_text(),
        model.file_storage_type@ == file_storage_type@,
        exists|now: u64| now <= i64::MAX && model.created_at@ == #[trigger] decimal_text(now as nat),
{
    let uuid = random_uuid();
    let now: u64 = clock::now();
    new_printfile_with(
        user_uuid,
        filename,
        filepath,
        filesize,
        sha256,
        file_storage_type,
        uuid,
        now,
    )
}

/// The outcome of storing the record of a file: the record, or an internal
/// error.
pub fn insert_printfile(model: PrintFileDbModel, executed: bool) -> (outcome: Result<
    PrintFileDbModel,
    AppError,
>)
    ensures
        outcome == if executed {
            Ok::<PrintFileDbModel, AppError>(model)
        } else {
            Err::<PrintFileDbModel, AppError>(AppError::InternalServer)
        },
{
    if executed {
        Ok(model)
    } else {
        Err(AppError::InternalServer)
    }
}

/// The outcome of an upload: the record of the last file it carried, or an
/// internal error if it carried none.
pub fn upload(last: Option<PrintFileDbModel>) -> (outcome: Result<PrintFileDbModel, AppError>)
    ensures
        outcome == match last {
            Some(model) => Ok::<PrintFileDbModel, AppError>(model),
            None => Err::<PrintFileDbModel, AppError>(AppError::InternalServer),
        },
{
    match last {
        Some(model) => Ok(model),
        None => Err(AppError::InternalServer),
    }
}

/// The outcome of deleting a file: success, or an internal error.
pub fn delete(executed: bool) -> (outcome: Result<bool, AppError>)
    ensures
        outcome == if executed {
            Ok::<bool, AppError>(true)
        } else {
            Err::<bool, AppError>(AppError::InternalServer)
        },
{
    if executed {
        Ok(true)
    } else {
        Err(AppError::InternalServer)
    }
}

/// The files of a user, or the error that says there are none.
pub fn get_all(rows: Vec<PrintFileDbModel>) -> (outcome: Result<Vec<PrintFileDbModel>, AppError>)
    ensures
        if rows@.len() == 0 {
            outcome matches Err(error) && error is PrintFile && error.says("No files found"@, 404)
        } else {
            outcome == Ok::<Vec<PrintFileDbModel>, AppError>(rows)
        },
{
    if rows.len() == 0 {
        Err(
            AppError::PrintFile {
                message: "No files found".to_string(),
                status: HttpStatus::not_found(),
            },
        )
    } else {
        Ok(rows)
    }
}

/// The file with an identifier, or the error that says there is none.
pub fn get_by_uuid(found: Option<PrintFileDbModel>) -> (outcome: Result<PrintFileDbModel, AppError>)
    ensures
        match found {
            Some(model) => outcome == Ok::<PrintFileDbModel, AppError>(model),
            None => outcome matches Err(error) && error is PrintFile && error.says(
                "No file found"@,
                404,
            ),
        },
{
    match found {
        Some(model) => Ok(model),
        None => Err(
            AppError::PrintFile {
                message: "No file found".to_string(),
                status: HttpStatus::not_found(),
            },
        ),
    }
}

} // verus!
