//! What one run reports: the failure kinds, the response record and the
//! process exit code.

use vstd::prelude::*;

verus! {

/// A failure of one run, with the offending path and the underlying cause.
#[derive(Debug)]
pub enum WorkerError {
    /// Standard input could not be read to its end.
    StdinRead { cause: String },
    /// Standard input did not decode into a request.
    InvalidRequest { cause: String },
    /// The input image could not be opened or decoded.
    ImageOpen { path: String, cause: String },
    /// The result could not be encoded or written.
    ImageSave { path: String, cause: String },
}

/// The one line a run reports.
#[derive(Debug)]
pub struct ProcessResponse {
    pub ok: bool,
    pub out_path: String,
    pub msg: String,
}

pub open spec fn success_msg() -> Seq<char> {
    "Image processed successfully"@
}

impl WorkerError {
    pub open spec fn message_spec(&self) -> Seq<char> {
        match self {
            WorkerError::StdinRead { cause } => "Failed to read stdin: "@ + cause@,
            WorkerError::InvalidRequest { cause } => "Invalid request: "@ + cause@,
            WorkerError::ImageOpen { path, cause } => "Processing failed: Failed to open image: "@
                + path@ + ": "@ + cause@,
            WorkerError::ImageSave { path, cause } => "Processing failed: Failed to save image: "@
                + path@ + ": "@ + cause@,
        }
    }

    /// The human-readable text reported for this failure.
    pub fn message(&self) -> (r: String)
        ensures
            r@ == self.message_spec(),
    {
        match self {
            WorkerError::StdinRead { cause } => {
                let mut m = String::from_str("Failed to read stdin: ");
                m.append(cause.as_str());
                m
            },
            WorkerError::InvalidRequest { cause } => {
                let mut m = String::from_str("Invalid request: ");
                m.append(cause.as_str());
                m
            },
            WorkerError::ImageOpen { path, cause } => {
                let mut m = String::from_str("Processing failed: Failed to open image: ");
                m.append(path.as_str());
                m.append(": ");
                m.append(cause.as_str());
                m
            },
            WorkerError::ImageSave { path, cause } => {
                let mut m = String::from_str("Processing failed: Failed to save image: ");
                m.append(path.as_str());
                m.append(": ");
                m.append(cause.as_str());
                m
            },
        }
    }
}

impl ProcessResponse {
    /// The response of a run that wrote its result to `out_path`.
    pub fn success(out_path: String) -> (r: ProcessResponse)
        ensures
            r.ok,
            r.out_path@ == out_path@,
            r.msg@ == success_msg(),
    {
        ProcessResponse { ok: true, out_path, msg: String::from_str("Image processed successfully") }
    }

    /// The response of a run that failed with `err`: no output path.
    pub fn failure(err: &WorkerError) -> (r: ProcessResponse)
        ensures
            !r.ok,
            r.out_path@ == Seq::<char>::empty(),
            r.msg@ == err.message_spec(),
    {
        ProcessResponse { ok: false, out_path: String::new(), msg: err.message() }
    }

    /// The response for the result of a run: the written path, or the failure.
    pub fn from_result(result: Result<String, WorkerError>) -> (r: ProcessResponse)
        ensures
            r.ok == result.is_ok(),
            match result {
                Ok(p) => r.out_path@ == p@ && r.msg@ == success_msg(),
                Err(e) => r.out_path@ == Seq::<char>::empty() && r.msg@ == e.message_spec(),
            },
    {
        match result {
            Ok(p) => ProcessResponse::success(p),
            Err(e) => ProcessResponse::failure(&e),
        }
    }

    /// The process exit code that goes with this response.
    pub fn exit_code(&self) -> (r: i32)
        ensures
            r == (if self.ok { 0i32 } else { 1i32 }),
    {
        if self.ok {
            0
        } else {
            1
        }
    }
}

} // verus!
