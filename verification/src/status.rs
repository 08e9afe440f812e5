//! The translation of an operation's outcome into the status record that the
//! cloud is sent.

use vstd::prelude::*;

verus! {

/// The operations that the cloud knows by a name of its own.
#[derive(Debug, Clone, Copy, PartialEq, Eq, Structural)]
pub enum CumulocitySupportedOperations {
    C8ySoftwareUpdate,
    C8yLogFileRequest,
    C8yRestartRequest,
    C8yUploadConfigFile,
    C8yDownloadConfigFile,
    C8yFirmware,
}

impl CumulocitySupportedOperations {
    /// The name by which the cloud knows this operation.
    pub open spec fn name_text(self) -> Seq<char> {
        match self {
            CumulocitySupportedOperations::C8ySoftwareUpdate => "c8y_SoftwareUpdate"@,
            CumulocitySupportedOperations::C8yLogFileRequest => "c8y_LogfileRequest"@,
            CumulocitySupportedOperations::C8yRestartRequest => "c8y_Restart"@,
            CumulocitySupportedOperations::C8yUploadConfigFile => "c8y_UploadConfigFile"@,
            CumulocitySupportedOperations::C8yDownloadConfigFile => "c8y_DownloadConfigFile"@,
            CumulocitySupportedOperations::C8yFirmware => "c8y_Firmware"@,
        }
    }

    /// Returns the name by which the cloud knows this operation.
    pub fn name(&self) -> (name: &'static str)
        ensures
            name@ == self.name_text(),
    {
        match self {
            CumulocitySupportedOperations::C8ySoftwareUpdate => "c8y_SoftwareUpdate",
            CumulocitySupportedOperations::C8yLogFileRequest => "c8y_LogfileRequest",
            CumulocitySupportedOperations::C8yRestartRequest => "c8y_Restart",
            CumulocitySupportedOperations::C8yUploadConfigFile => "c8y_UploadConfigFile",
            CumulocitySupportedOperations::C8yDownloadConfigFile => "c8y_DownloadConfigFile",
            CumulocitySupportedOperations::C8yFirmware => "c8y_Firmware",
        }
    }
}

/// What an upload hands back when it succeeds.
#[derive(Debug, Clone)]
pub struct UploadResponse {
    /// Where the file went.
    pub url: String,
    /// The file that was sent.
    pub file_path: String,
}

/// The failure of an upload, as the text that describes it.
#[derive(Debug, Clone)]
pub struct UploadError {
    pub message: String,
}

/// The terminal status of an operation, as the cloud is told of it.
#[derive(Debug)]
pub enum StatusRecord {
    /// The operation succeeded; `result` refers to what it produced, if anything.
    Successful { operation: CumulocitySupportedOperations, result: Option<String> },
    /// The operation failed, for the reason given.
    Failed { operation: CumulocitySupportedOperations, reason: String },
}

/// The mathematical content of a [`StatusRecord`].
pub enum StatusRecordView {
    Successful { operation: CumulocitySupportedOperations, result: Option<Seq<char>> },
    Failed { operation: CumulocitySupportedOperations, reason: Seq<char> },
}

impl View for StatusRecord {
    type V = StatusRecordView;

    open spec fn view(&self) -> StatusRecordView {
        match self {
            StatusRecord::Successful { operation, result } => StatusRecordView::Successful {
                operation: *operation,
                result: match result {
                    Some(reference) => Some(reference@),
                    None => None,
                },
            },
            StatusRecord::Failed { operation, reason } => StatusRecordView::Failed {
                operation: *operation,
                reason: reason@,
            },
        }
    }
}

/// The status of `operation` after an upload that ended in `failure` (the
/// text of what went wrong) or, where there is none, succeeded: a success
/// refers to `binary_url`; a failure gives as its reason that the upload
/// failed, and with what.
pub open spec fn upload_status(
    failure: Option<Seq<char>>,
    binary_url: Seq<char>,
    operation: CumulocitySupportedOperations,
) -> StatusRecordView {
    match failure {
        None => StatusRecordView::Successful { operation, result: Some(binary_url) },
        Some(cause) => StatusRecordView::Failed {
            operation,
            reason: "Upload failed with "@ + cause,
        },
    }
}

/// The text of the failure of an upload, if it failed.
pub open spec fn failure_of(upload_result: Result<UploadResponse, UploadError>) -> Option<Seq<char>> {
    match upload_result {
        Ok(_) => None,
        Err(error) => Some(error.message@),
    }
}

/// Translates the outcome of an upload into the status of `operation`.
pub fn get_smartrest_response_for_upload_result(
    upload_result: Result<UploadResponse, UploadError>,
    binary_url: &str,
    operation: CumulocitySupportedOperations,
) -> (status: StatusRecord)
    ensures
        status@ == upload_status(failure_of(upload_result), binary_url@, operation),
{
    match upload_result {
        Ok(_) => StatusRecord::Successful { operation, result: Some(String::from_str(binary_url)) },
        Err(error) => {
            let mut reason = String::from_str("Upload failed with ");
            reason.append(error.message.as_str());
            StatusRecord::Failed { operation, reason }
        },
    }
}

/// The status of a failed upload keeps what went wrong, character for
/// character: the text of the failure is the end of the reason.
pub proof fn lemma_reason_keeps_failure_text(
    cause: Seq<char>,
    binary_url: Seq<char>,
    operation: CumulocitySupportedOperations,
)
    ensures
        upload_status(Some(cause), binary_url, operation) matches StatusRecordView::Failed {
            operation: named,
            reason,
        } && named == operation && reason.len() >= cause.len() && reason.skip(
            reason.len() - cause.len(),
        ) == cause,
{
    let head = "Upload failed with "@;
    assert((head + cause).skip(head.len() as int) =~= cause);
}

} // verus!
