//! The HTTP endpoint's decisions: how a request body is sized, and whether
//! and how far a firmware upload proceeds.

use vstd::prelude::*;

verus! {

/// The size of the chunks in which a firmware image is read.
pub const FIRMWARE_DOWNLOAD_CHUNK_SIZE: usize = 8192;

/// The largest firmware image that is accepted.
pub const FIRMWARE_MAX_SIZE: usize = 3145728;

/// How many bytes follow the image header in the smallest image that is
/// accepted.
pub const FIRMWARE_MIN_BODY: usize = 1024;

/// The size of the buffer for a call's body: the announced length, or 64
/// bytes where none was announced.
pub fn body_size(content_len: Option<u64>) -> (size: u64)
    ensures
        size == match content_len {
            Some(len) => len,
            None => 64,
        },
{
    match content_len {
        Some(len) => len,
        None => 64,
    }
}

/// Why an upload is refused before any byte is read. Each refusal is
/// answered with status 400.
#[derive(Clone, Copy, Debug, PartialEq, Eq, Structural)]
pub enum UploadRefusal {
    /// The announced size is below the smallest image.
    TooSmall,
    /// The announced size is above the largest image.
    TooBig,
    /// The content type is not `application/octet-stream`.
    WrongContentType,
}

/// The verdict on an upload's announced size and content type. The
/// smallest image is a header of `header_size` bytes and `FIRMWARE_MIN_BODY`
/// more; the size is looked at first, then the content type.
pub open spec fn upload_verdict(file_size: usize, header_size: usize, octet_stream: bool)
    -> Result<(), UploadRefusal> {
    if file_size < header_size + FIRMWARE_MIN_BODY {
        Err(UploadRefusal::TooSmall)
    } else if file_size > FIRMWARE_MAX_SIZE {
        Err(UploadRefusal::TooBig)
    } else if !octet_stream {
        Err(UploadRefusal::WrongContentType)
    } else {
        Ok(())
    }
}

/// Decides whether an upload may start.
pub fn check_upload(file_size: usize, header_size: usize, octet_stream: bool) -> (verdict: Result<
    (),
    UploadRefusal,
>)
    ensures
        verdict == upload_verdict(file_size, header_size, octet_stream),
{
    let too_small = match header_size.checked_add(FIRMWARE_MIN_BODY) {
        Some(smallest) => file_size < smallest,
        None => true,
    };
    if too_small {
        Err(UploadRefusal::TooSmall)
    } else if file_size > FIRMWARE_MAX_SIZE {
        Err(UploadRefusal::TooBig)
    } else if !octet_stream {
        Err(UploadRefusal::WrongContentType)
    } else {
        Ok(())
    }
}

/// What happened when the next chunk of an upload was read.
#[derive(Clone, Copy, Debug, PartialEq, Eq, Structural)]
pub enum ChunkEvent {
    /// The read failed.
    ReadFailed,
    /// This many bytes were read. `header_ok` says whether they hold a
    /// usable image header, and is looked at for the first chunk only;
    /// `written` says whether they were written to the update partition,
    /// and is looked at where any byte was read.
    Read { bytes: usize, header_ok: bool, written: bool },
}

/// What the host does after a chunk.
#[derive(Clone, Copy, Debug, PartialEq, Eq, Structural)]
pub enum ChunkStep {
    /// Read the next chunk.
    Continue,
    /// Every announced byte has arrived: complete the update and answer 200.
    Complete,
    /// Abort the update and answer with this status.
    Abort(u16, AbortReason),
}

/// Why an upload is aborted.
#[derive(Clone, Copy, Debug, PartialEq, Eq, Structural)]
pub enum AbortReason {
    /// The connection could not be read.
    Io,
    /// The first chunk holds no usable image header.
    NoFirmwareInfo,
    /// The update partition could not be written.
    WriteFailed,
}

/// The progress of an upload.
#[derive(Clone, Copy, Debug, PartialEq, Eq, Structural)]
pub struct Download {
    /// The announced size of the image.
    pub file_size: usize,
    /// How many bytes have arrived.
    pub total_bytes_read: usize,
    /// Whether the image header is still to come.
    pub missing_firmware_info: bool,
}

impl Download {
    /// The step that follows an event, and the progress after it.
    pub open spec fn after(self, event: ChunkEvent) -> (ChunkStep, Download) {
        match event {
            ChunkEvent::ReadFailed => (ChunkStep::Abort(500, AbortReason::Io), self),
            ChunkEvent::Read { bytes, header_ok, written } => {
                let total = if self.total_bytes_read + bytes > usize::MAX {
                    usize::MAX
                } else {
                    (self.total_bytes_read + bytes) as usize
                };
                let counted = Download { total_bytes_read: total, ..self };
                if self.missing_firmware_info && !header_ok {
                    (ChunkStep::Abort(400, AbortReason::NoFirmwareInfo), counted)
                } else {
                    let seen = Download { missing_firmware_info: false, ..counted };
                    if bytes > 0 && !written {
                        (ChunkStep::Abort(500, AbortReason::WriteFailed), seen)
                    } else if total >= self.file_size {
                        (ChunkStep::Complete, seen)
                    } else {
                        (ChunkStep::Continue, seen)
                    }
                }
            },
        }
    }

    /// An upload of `file_size` bytes of which none has arrived.
    pub fn new(file_size: usize) -> (download: Self)
        ensures
            download == (Download { file_size, total_bytes_read: 0, missing_firmware_info: true }),
    {
        Download { file_size, total_bytes_read: 0, missing_firmware_info: true }
    }

    /// Takes one event in and says what the host does next.
    pub fn advance(&mut self, event: ChunkEvent) -> (step: ChunkStep)
        ensures
            (step, *final(self)) == old(self).after(event),
    {
        match event {
            ChunkEvent::ReadFailed => ChunkStep::Abort(500, AbortReason::Io),
            ChunkEvent::Read { bytes, header_ok, written } => {
                self.total_bytes_read = self.total_bytes_read.saturating_add(bytes);
                if self.missing_firmware_info && !header_ok {
                    return ChunkStep::Abort(400, AbortReason::NoFirmwareInfo);
                }
                self.missing_firmware_info = false;
                if bytes > 0 && !written {
                    ChunkStep::Abort(500, AbortReason::WriteFailed)
                } else if self.total_bytes_read >= self.file_size {
                    ChunkStep::Complete
                } else {
                    ChunkStep::Continue
                }
            },
        }
    }
}

} // verus!
