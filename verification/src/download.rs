//! The download of a file: which answers are accepted, and what is said when it
//! fails.

use crate::text::{decimal, joined};
use vstd::prelude::*;

verus! {

/// What stopped a download.
pub enum DownloadTrouble {
    /// The request failed, for this reason.
    Request(String),
    /// The server answered with this HTTP status, which is no success.
    Status(u16),
    /// The answer could not be read, for this reason.
    Read(String),
    /// The file could not be written, for this reason.
    Write(String),
}

/// How an HTTP status is written: its number and what it means.
pub uninterp spec fn status_text_of(status: u16) -> Seq<char>;

/// `reqwest::StatusCode::from_u16` and the way a status code is written: its
/// number, a space, and the phrase that belongs to it. The phrase depends on the
/// number alone.
#[verifier::external_body]
fn status_text(status: u16) -> (r: String)
    requires
        100 <= status < 1000,
    ensures
        r@ == status_text_of(status),
        (decimal(status as nat).push(' ')).is_prefix_of(r@),
{
    reqwest::StatusCode::from_u16(status).unwrap().to_string()
}

/// What is said of an answer that is no success, with this status text.
pub fn refusal(status: &str) -> (r: String)
    ensures
        r@ == "HTTP "@ + status@,
{
    joined("HTTP ", status)
}

/// What is said when a download fails.
pub open spec fn explanation(trouble: DownloadTrouble) -> Seq<char> {
    match trouble {
        DownloadTrouble::Request(reason) => "Request: "@ + reason@,
        DownloadTrouble::Status(status) => "HTTP "@ + status_text_of(status),
        DownloadTrouble::Read(reason) => "Read: "@ + reason@,
        DownloadTrouble::Write(reason) => "Write: "@ + reason@,
    }
}

/// What is said when a download fails.
pub fn download_error(trouble: &DownloadTrouble) -> (r: String)
    requires
        *trouble matches DownloadTrouble::Status(status) ==> 100 <= status < 1000,
    ensures
        r@ == explanation(*trouble),
        *trouble matches DownloadTrouble::Request(reason) ==> r@ == "Request: "@ + reason@,
        *trouble matches DownloadTrouble::Status(status) ==> r@ == "HTTP "@ + status_text_of(
            status,
        ),
        *trouble matches DownloadTrouble::Read(reason) ==> r@ == "Read: "@ + reason@,
        *trouble matches DownloadTrouble::Write(reason) ==> r@ == "Write: "@ + reason@,
        *trouble matches DownloadTrouble::Status(status) ==> ("HTTP "@ + decimal(
            status as nat,
        ).push(' ')).is_prefix_of(r@),
{
    match trouble {
        DownloadTrouble::Request(reason) => joined("Request: ", reason.as_str()),
        DownloadTrouble::Status(status) => {
            let text = status_text(*status);
            let r = refusal(text.as_str());
            proof {
                let head = decimal(*status as nat).push(' ');
                assert("HTTP "@ + head =~= r@.subrange(0, ("HTTP "@ + head).len() as int));
            }
            r
        },
        DownloadTrouble::Read(reason) => joined("Read: ", reason.as_str()),
        DownloadTrouble::Write(reason) => joined("Write: ", reason.as_str()),
    }
}

/// What is said of a failed download ends with the reason, behind a word that says
/// where it failed. A status that is no success is told after the word HTTP.
pub proof fn trouble_is_told_with_its_reason(trouble: DownloadTrouble)
    ensures
        trouble matches DownloadTrouble::Request(reason) ==> explanation(trouble) == "Request: "@
            + reason@,
        trouble matches DownloadTrouble::Read(reason) ==> explanation(trouble) == "Read: "@
            + reason@,
        trouble matches DownloadTrouble::Write(reason) ==> explanation(trouble) == "Write: "@
            + reason@,
        trouble matches DownloadTrouble::Status(status) ==> explanation(trouble) == "HTTP "@
            + status_text_of(status),
{
}

} // verus!
