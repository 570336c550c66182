//! Download jobs as the API shows them: their states and kinds.

use vstd::prelude::*;

use crate::text::str_is;

verus! {

#[derive(Debug, Clone, Copy, PartialEq, Eq, Structural)]
pub enum DownloadJobStatus {
    Queued,
    Running,
    Paused,
    Completed,
    Failed,
    Cancelled,
}

/// The stored and serialised name of a job state.
pub open spec fn status_text(s: DownloadJobStatus) -> Seq<char> {
    match s {
        DownloadJobStatus::Queued => "queued"@,
        DownloadJobStatus::Running => "running"@,
        DownloadJobStatus::Paused => "paused"@,
        DownloadJobStatus::Completed => "completed"@,
        DownloadJobStatus::Failed => "failed"@,
        DownloadJobStatus::Cancelled => "cancelled"@,
    }
}

/// The job state a stored name stands for, if any.
pub open spec fn status_named(t: Seq<char>) -> Option<DownloadJobStatus> {
    if t == "queued"@ {
        Some(DownloadJobStatus::Queued)
    } else if t == "running"@ {
        Some(DownloadJobStatus::Running)
    } else if t == "paused"@ {
        Some(DownloadJobStatus::Paused)
    } else if t == "completed"@ {
        Some(DownloadJobStatus::Completed)
    } else if t == "failed"@ {
        Some(DownloadJobStatus::Failed)
    } else if t == "cancelled"@ {
        Some(DownloadJobStatus::Cancelled)
    } else {
        None
    }
}

impl DownloadJobStatus {
    pub fn as_str(self) -> (r: &'static str)
        ensures
            r@ == status_text(self),
    {
        match self {
            DownloadJobStatus::Queued => "queued",
            DownloadJobStatus::Running => "running",
            DownloadJobStatus::Paused => "paused",
            DownloadJobStatus::Completed => "completed",
            DownloadJobStatus::Failed => "failed",
            DownloadJobStatus::Cancelled => "cancelled",
        }
    }

    pub fn parse(s: &str) -> (r: Option<DownloadJobStatus>)
        ensures
            r == status_named(s@),
    {
        if str_is(s, "queued") {
            Some(DownloadJobStatus::Queued)
        } else if str_is(s, "running") {
            Some(DownloadJobStatus::Running)
        } else if str_is(s, "paused") {
            Some(DownloadJobStatus::Paused)
        } else if str_is(s, "completed") {
            Some(DownloadJobStatus::Completed)
        } else if str_is(s, "failed") {
            Some(DownloadJobStatus::Failed)
        } else if str_is(s, "cancelled") {
            Some(DownloadJobStatus::Cancelled)
        } else {
            None
        }
    }
}

/// A state's stored name reads back as that state.
pub proof fn lemma_status_round_trip(s: DownloadJobStatus)
    ensures
        status_named(status_text(s)) == Some(s),
{
    reveal_strlit("queued");
    reveal_strlit("running");
    reveal_strlit("paused");
    reveal_strlit("completed");
    reveal_strlit("failed");
    reveal_strlit("cancelled");
    assert("queued"@[0] != "paused"@[0]);
    assert("queued"@[0] != "failed"@[0]);
    assert("paused"@[0] != "failed"@[0]);
    assert("completed"@[1] != "cancelled"@[1]);
}

#[derive(Debug, Clone, Copy, PartialEq, Eq, Structural)]
pub enum DownloadJobType {
    Album,
    Track,
    Artist,
    Playlist,
    Torrent,
}

pub open spec fn job_type_text(t: DownloadJobType) -> Seq<char> {
    match t {
        DownloadJobType::Album => "album"@,
        DownloadJobType::Track => "track"@,
        DownloadJobType::Artist => "artist"@,
        DownloadJobType::Playlist => "playlist"@,
        DownloadJobType::Torrent => "torrent"@,
    }
}

/// The job type a stored name denotes, if any.
pub open spec fn job_type_named(t: Seq<char>) -> Option<DownloadJobType> {
    if t == "album"@ {
        Some(DownloadJobType::Album)
    } else if t == "track"@ {
        Some(DownloadJobType::Track)
    } else if t == "artist"@ {
        Some(DownloadJobType::Artist)
    } else if t == "playlist"@ {
        Some(DownloadJobType::Playlist)
    } else if t == "torrent"@ {
        Some(DownloadJobType::Torrent)
    } else {
        None
    }
}

impl DownloadJobType {
    pub fn parse(s: &str) -> (r: Option<DownloadJobType>)
        ensures
            r == job_type_named(s@),
    {
        if str_is(s, "album") {
            Some(DownloadJobType::Album)
        } else if str_is(s, "track") {
            Some(DownloadJobType::Track)
        } else if str_is(s, "artist") {
            Some(DownloadJobType::Artist)
        } else if str_is(s, "playlist") {
            Some(DownloadJobType::Playlist)
        } else if str_is(s, "torrent") {
            Some(DownloadJobType::Torrent)
        } else {
            None
        }
    }

    pub fn as_str(self) -> (r: &'static str)
        ensures
            r@ == job_type_text(self),
    {
        match self {
            DownloadJobType::Album => "album",
            DownloadJobType::Track => "track",
            DownloadJobType::Artist => "artist",
            DownloadJobType::Playlist => "playlist",
            DownloadJobType::Torrent => "torrent",
        }
    }
}

#[derive(Debug, Clone)]
pub struct CreateDownloadRequest {
    pub job_type: DownloadJobType,
    pub qobuz_id: u64,
    pub quality: u8,
}

#[derive(Debug, Clone)]
pub struct CreateDownloadResponse {
    pub job_id: i64,
}

} // verus!
