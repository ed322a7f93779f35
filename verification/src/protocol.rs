//! The requests and responses of the privileged helper.
//!
//! The helper reads one request per line and answers each with any number
//! of notification and progress responses followed by exactly one terminal
//! response, success or error. How lines become requests and responses
//! become lines is the host's business; what is answered to what is decided
//! here.

use vstd::prelude::*;
use crate::engine::{FlowView, TurnView};
use crate::error::{join2, Failure, OpError};
use crate::event::{event_views, Event, EventView, NotificationLevel};
use crate::operations::dispatch::{Job, JobView};
use crate::operations::{fs_of_name, FilesystemType};
use crate::text::{copy, opt_text};

verus! {

/// A request to the helper.
#[derive(Debug, Clone, PartialEq, Eq)]
pub enum Request {
    Mount { device: String },
    Unmount { device: String },
    Format { device: String, fs_type: String },
    FormatWholeDisk { disk: String, fs_type: String },
    CreatePartitionTable { disk: String, table_type: String },
    CreatePartition { disk: String, size: String, fs_type: Option<String> },
    CreateEncryptedPartition { disk: String, size: String, passphrase: String, fs_type: String },
    DeletePartition { partition: String },
    ResizePartition { partition: String, new_size: String },
    UnlockLuks { device: String, passphrase: String, mapper_name: String },
    LockLuks { mapper_name: String },
    EncryptPartition { partition: String, passphrase: String },
    EncryptAndFormat { partition: String, passphrase: String, fs_type: String },
    Shutdown,
}

/// The mathematical content of a [`Request`].
pub enum RequestView {
    Mount { device: Seq<char> },
    Unmount { device: Seq<char> },
    Format { device: Seq<char>, fs_type: Seq<char> },
    FormatWholeDisk { disk: Seq<char>, fs_type: Seq<char> },
    CreatePartitionTable { disk: Seq<char>, table_type: Seq<char> },
    CreatePartition { disk: Seq<char>, size: Seq<char>, fs_type: Option<Seq<char>> },
    CreateEncryptedPartition {
        disk: Seq<char>,
        size: Seq<char>,
        passphrase: Seq<char>,
        fs_type: Seq<char>,
    },
    DeletePartition { partition: Seq<char> },
    ResizePartition { partition: Seq<char>, new_size: Seq<char> },
    UnlockLuks { device: Seq<char>, passphrase: Seq<char>, mapper_name: Seq<char> },
    LockLuks { mapper_name: Seq<char> },
    EncryptPartition { partition: Seq<char>, passphrase: Seq<char> },
    EncryptAndFormat { partition: Seq<char>, passphrase: Seq<char>, fs_type: Seq<char> },
    Shutdown,
}

impl View for Request {
    type V = RequestView;

    open spec fn view(&self) -> RequestView {
        match self {
            Request::Mount { device } => RequestView::Mount { device: device@ },
            Request::Unmount { device } => RequestView::Unmount { device: device@ },
            Request::Format { device, fs_type } => RequestView::Format {
                device: device@,
                fs_type: fs_type@,
            },
            Request::FormatWholeDisk { disk, fs_type } => RequestView::FormatWholeDisk {
                disk: disk@,
                fs_type: fs_type@,
            },
            Request::CreatePartitionTable { disk, table_type } => RequestView::CreatePartitionTable {
                disk: disk@,
                table_type: table_type@,
            },
            Request::CreatePartition { disk, size, fs_type } => RequestView::CreatePartition {
                disk: disk@,
                size: size@,
                fs_type: opt_text(*fs_type),
            },
            Request::CreateEncryptedPartition {
                disk,
                size,
                passphrase,
                fs_type,
            } => RequestView::CreateEncryptedPartition {
                disk: disk@,
                size: size@,
                passphrase: passphrase@,
                fs_type: fs_type@,
            },
            Request::DeletePartition { partition } => RequestView::DeletePartition {
                partition: partition@,
            },
            Request::ResizePartition { partition, new_size } => RequestView::ResizePartition {
                partition: partition@,
                new_size: new_size@,
            },
            Request::UnlockLuks { device, passphrase, mapper_name } => RequestView::UnlockLuks {
                device: device@,
                passphrase: passphrase@,
                mapper_name: mapper_name@,
            },
            Request::LockLuks { mapper_name } => RequestView::LockLuks {
                mapper_name: mapper_name@,
            },
            Request::EncryptPartition { partition, passphrase } => RequestView::EncryptPartition {
                partition: partition@,
                passphrase: passphrase@,
            },
            Request::EncryptAndFormat {
                partition,
                passphrase,
                fs_type,
            } => RequestView::EncryptAndFormat {
                partition: partition@,
                passphrase: passphrase@,
                fs_type: fs_type@,
            },
            Request::Shutdown => RequestView::Shutdown,
        }
    }
}

/// A response of the helper.
#[derive(Debug, Clone, PartialEq, Eq)]
pub enum Response {
    /// The request was carried out.
    Success { data: Option<String> },
    Error { message: String },
    Notification { level: String, message: String },
    Progress { action: String, message: Option<String> },
}

/// The mathematical content of a [`Response`].
pub enum ResponseView {
    Success { data: Option<Seq<char>> },
    Error { message: Seq<char> },
    Notification { level: Seq<char>, message: Seq<char> },
    Progress { action: Seq<char>, message: Option<Seq<char>> },
}

impl View for Response {
    type V = ResponseView;

    open spec fn view(&self) -> ResponseView {
        match self {
            Response::Success { data } => ResponseView::Success { data: opt_text(*data) },
            Response::Error { message } => ResponseView::Error { message: message@ },
            Response::Notification { level, message } => ResponseView::Notification {
                level: level@,
                message: message@,
            },
            Response::Progress { action, message } => ResponseView::Progress {
                action: action@,
                message: opt_text(*message),
            },
        }
    }
}

/// The views of a sequence of responses.
pub open spec fn response_views(v: Seq<Response>) -> Seq<ResponseView> {
    Seq::new(v.len(), |i: int| v[i]@)
}

/// Whether a response is terminal: the one that ends the answer to a
/// request.
pub open spec fn is_terminal(r: ResponseView) -> bool {
    r is Success || r is Error
}

impl Response {
    pub fn ok() -> (r: Response)
        ensures
            r@ == (ResponseView::Success { data: None }),
    {
        Response::Success { data: None }
    }

    pub fn error(message: &str) -> (r: Response)
        ensures
            r@ == (ResponseView::Error { message: message@ }),
    {
        Response::Error { message: copy(message) }
    }

    pub fn notification(level: &str, message: &str) -> (r: Response)
        ensures
            r@ == (ResponseView::Notification { level: level@, message: message@ }),
    {
        Response::Notification { level: copy(level), message: copy(message) }
    }

    pub fn progress_start(message: &str) -> (r: Response)
        ensures
            r@ == (ResponseView::Progress { action: "start"@, message: Some(message@) }),
    {
        Response::Progress { action: copy("start"), message: Some(copy(message)) }
    }

    pub fn progress_end() -> (r: Response)
        ensures
            r@ == (ResponseView::Progress { action: "end"@, message: None }),
    {
        Response::Progress { action: copy("end"), message: None }
    }
}

/// The name of a notification level on the wire.
pub open spec fn level_name(level: NotificationLevel) -> Seq<char> {
    match level {
        NotificationLevel::Info => "info"@,
        NotificationLevel::Warning => "warning"@,
        NotificationLevel::Error => "error"@,
    }
}

/// The response that tells the front end of an event. An error
/// notification has none: the failure it tells of is the terminal response.
/// Nor has a request to read the inventory again.
pub open spec fn response_to(e: EventView) -> Option<ResponseView> {
    match e {
        EventView::Notification { level, message } => if level == NotificationLevel::Error {
            None
        } else {
            Some(ResponseView::Notification { level: level_name(level), message })
        },
        EventView::StartProgress { message } => Some(
            ResponseView::Progress { action: "start"@, message: Some(message) },
        ),
        EventView::EndProgress => Some(ResponseView::Progress { action: "end"@, message: None }),
        EventView::Refresh => None,
    }
}

/// The responses that tell of the events, in their order.
pub open spec fn responses_to(events: Seq<EventView>) -> Seq<ResponseView>
    decreases events.len(),
{
    if events.len() == 0 {
        Seq::empty()
    } else {
        match response_to(events.last()) {
            Some(r) => responses_to(events.drop_last()).push(r),
            None => responses_to(events.drop_last()),
        }
    }
}

/// The terminal response to a result.
pub open spec fn terminal_for(result: Result<(), Failure>) -> ResponseView {
    match result {
        Ok(u) => ResponseView::Success { data: None },
        Err(f) => ResponseView::Error { message: f.message },
    }
}

/// The responses sent for a turn of an operation: those for its events, and
/// the terminal response where the turn ends the operation.
pub open spec fn reply_to<SV>(t: TurnView<SV, ()>) -> Seq<ResponseView> {
    match t.flow {
        FlowView::Wait(s, a) => responses_to(t.events),
        FlowView::Done(r) => responses_to(t.events).push(terminal_for(r)),
    }
}

/// No response that tells of an event is terminal.
pub proof fn lemma_responses_not_terminal(events: Seq<EventView>)
    ensures
        forall|i: int|
            0 <= i < responses_to(events).len() ==> !is_terminal(#[trigger] responses_to(events)[i]),
    decreases events.len(),
{
    if events.len() > 0 {
        lemma_responses_not_terminal(events.drop_last());
        let rest = responses_to(events.drop_last());
        let all = responses_to(events);
        assert forall|i: int| 0 <= i < all.len() implies !is_terminal(#[trigger] all[i]) by {
            if i < rest.len() {
                assert(all[i] == rest[i]);
            } else {
                assert(response_to(events.last()) is Some);
                assert(all[i] == response_to(events.last())->0);
            }
        }
    }
}

/// The answer to a request ends with exactly one terminal response: while
/// an operation waits, none of the responses sent for it is terminal; and
/// when it ends, the last response is terminal and no other is.
pub proof fn law_one_terminal_response<SV>(t: TurnView<SV, ()>)
    ensures
        t.flow is Wait ==> forall|i: int|
            0 <= i < reply_to(t).len() ==> !is_terminal(#[trigger] reply_to(t)[i]),
        t.flow is Done ==> reply_to(t).len() > 0 && is_terminal(reply_to(t).last()) && forall|
            i: int,
        | 0 <= i < reply_to(t).len() - 1 ==> !is_terminal(#[trigger] reply_to(t)[i]),
{
    lemma_responses_not_terminal(t.events);
}

fn level_text(level: NotificationLevel) -> (s: &'static str)
    ensures
        s@ == level_name(level),
{
    match level {
        NotificationLevel::Info => "info",
        NotificationLevel::Warning => "warning",
        NotificationLevel::Error => "error",
    }
}

/// The response that tells the front end of an event, if there is one.
pub fn respond(event: &Event) -> (r: Option<Response>)
    ensures
        match r {
            Some(x) => response_to(event@) == Some(x@),
            None => response_to(event@) is None,
        },
{
    match event {
        Event::Notification { level, message } => match level {
            NotificationLevel::Error => None,
            _ => Some(Response::notification(level_text(*level), message.as_str())),
        },
        Event::StartProgress { message } => Some(Response::progress_start(message.as_str())),
        Event::EndProgress => Some(Response::progress_end()),
        Event::Refresh => None,
    }
}

/// The terminal response to a result.
pub fn terminal(result: &Result<(), OpError>) -> (r: Response)
    ensures
        r@ == terminal_for(
            match *result {
                Ok(u) => Ok(()),
                Err(e) => Err(e@),
            },
        ),
{
    match result {
        Ok(_) => Response::ok(),
        Err(e) => Response::error(e.message.as_str()),
    }
}

/// The responses that tell of the events, in their order.
pub fn respond_all(events: &Vec<Event>) -> (v: Vec<Response>)
    ensures
        response_views(v@) == responses_to(event_views(events@)),
{
    let mut v: Vec<Response> = Vec::new();
    let mut i: usize = 0;
    let ghost all = event_views(events@);
    assert(all.take(0) == Seq::<EventView>::empty());
    assert(response_views(v@) =~= Seq::<ResponseView>::empty());
    while i < events.len()
        invariant
            i <= events.len(),
            all == event_views(events@),
            response_views(v@) == responses_to(all.take(i as int)),
        decreases events.len() - i,
    {
        let ghost before = response_views(v@);
        proof {
            let cur = all.take(i + 1);
            assert(cur.drop_last() == all.take(i as int));
            assert(cur.last() == events@[i as int]@);
        }
        match respond(&events[i]) {
            Some(r) => {
                v.push(r);
                assert(response_views(v@) =~= before.push(r@));
            },
            None => {},
        }
        i = i + 1;
    }
    assert(all.take(events.len() as int) == all);
    v
}

/// What the helper does with a request.
#[derive(Debug, Clone, PartialEq, Eq)]
pub enum Handling {
    /// It ends, without a response.
    Shutdown,
    /// It answers at once, with a terminal error: the request names a
    /// filesystem type that does not exist.
    Refused(Response),
    /// It begins the job.
    Accepted(Job),
}

/// The mathematical content of a [`Handling`].
pub enum HandlingView {
    Shutdown,
    Refused(ResponseView),
    Accepted(JobView),
}

impl View for Handling {
    type V = HandlingView;

    open spec fn view(&self) -> HandlingView {
        match self {
            Handling::Shutdown => HandlingView::Shutdown,
            Handling::Refused(r) => HandlingView::Refused(r@),
            Handling::Accepted(j) => HandlingView::Accepted(j@),
        }
    }
}

/// The refusal of a filesystem type that does not exist.
pub open spec fn refused_fs(fs_type: Seq<char>) -> HandlingView {
    HandlingView::Refused(
        ResponseView::Error { message: "Unsupported filesystem type: "@ + fs_type },
    )
}

/// The job of a request that names a filesystem type, or the refusal.
pub open spec fn with_fs(fs_type: Seq<char>, job: spec_fn(FilesystemType) -> JobView)
    -> HandlingView {
    match fs_of_name(fs_type) {
        Some(fs) => HandlingView::Accepted(job(fs)),
        None => refused_fs(fs_type),
    }
}

/// What the helper does with a request.
pub open spec fn handling_of(r: RequestView) -> HandlingView {
    match r {
        RequestView::Mount { device } => HandlingView::Accepted(JobView::Mount { device }),
        RequestView::Unmount { device } => HandlingView::Accepted(JobView::Unmount { device }),
        RequestView::Format { device, fs_type } => with_fs(
            fs_type,
            |fs: FilesystemType| JobView::Format { device, fs },
        ),
        RequestView::FormatWholeDisk { disk, fs_type } => with_fs(
            fs_type,
            |fs: FilesystemType| JobView::FormatWholeDisk { disk, fs },
        ),
        RequestView::CreatePartitionTable { disk, table_type } => HandlingView::Accepted(
            JobView::CreatePartitionTable { disk, table_type },
        ),
        RequestView::CreatePartition { disk, size, fs_type } => match fs_type {
            None => HandlingView::Accepted(JobView::CreatePartition { disk, size, fs: None }),
            Some(t) => with_fs(
                t,
                |fs: FilesystemType| JobView::CreatePartition { disk, size, fs: Some(fs) },
            ),
        },
        RequestView::CreateEncryptedPartition { disk, size, passphrase, fs_type } => with_fs(
            fs_type,
            |fs: FilesystemType| JobView::CreateEncryptedPartition { disk, size, passphrase, fs },
        ),
        RequestView::DeletePartition { partition } => HandlingView::Accepted(
            JobView::DeletePartition { partition },
        ),
        RequestView::ResizePartition { partition, new_size } => HandlingView::Accepted(
            JobView::ResizePartition { partition, new_size },
        ),
        RequestView::UnlockLuks { device, passphrase, mapper_name } => HandlingView::Accepted(
            JobView::UnlockLuks { device, passphrase, mapper_name },
        ),
        RequestView::LockLuks { mapper_name } => HandlingView::Accepted(
            JobView::LockLuks { mapper_name },
        ),
        RequestView::EncryptPartition { partition, passphrase } => HandlingView::Accepted(
            JobView::EncryptPartition { partition, passphrase },
        ),
        RequestView::EncryptAndFormat { partition, passphrase, fs_type } => with_fs(
            fs_type,
            |fs: FilesystemType| JobView::EncryptAndFormat { partition, passphrase, fs },
        ),
        RequestView::Shutdown => HandlingView::Shutdown,
    }
}

fn refuse_fs(fs_type: &str) -> (h: Handling)
    ensures
        h@ == refused_fs(fs_type@),
{
    Handling::Refused(Response::error(join2("Unsupported filesystem type: ", fs_type).as_str()))
}

/// Decides what the helper does with a request.
pub fn handle_request(request: &Request) -> (h: Handling)
    ensures
        h@ == handling_of(request@),
{
    match request {
        Request::Mount { device } => Handling::Accepted(
            Job::Mount { device: copy(device.as_str()) },
        ),
        Request::Unmount { device } => Handling::Accepted(
            Job::Unmount { device: copy(device.as_str()) },
        ),
        Request::Format { device, fs_type } => match FilesystemType::from_name(fs_type.as_str()) {
            Some(fs) => Handling::Accepted(Job::Format { device: copy(device.as_str()), fs }),
            None => refuse_fs(fs_type.as_str()),
        },
        Request::FormatWholeDisk { disk, fs_type } => match FilesystemType::from_name(
            fs_type.as_str(),
        ) {
            Some(fs) => Handling::Accepted(Job::FormatWholeDisk { disk: copy(disk.as_str()), fs }),
            None => refuse_fs(fs_type.as_str()),
        },
        Request::CreatePartitionTable { disk, table_type } => Handling::Accepted(
            Job::CreatePartitionTable {
                disk: copy(disk.as_str()),
                table_type: copy(table_type.as_str()),
            },
        ),
        Request::CreatePartition { disk, size, fs_type } => match fs_type {
            None => Handling::Accepted(
                Job::CreatePartition {
                    disk: copy(disk.as_str()),
                    size: copy(size.as_str()),
                    fs: None,
                },
            ),
            Some(t) => match FilesystemType::from_name(t.as_str()) {
                Some(fs) => Handling::Accepted(
                    Job::CreatePartition {
                        disk: copy(disk.as_str()),
                        size: copy(size.as_str()),
                        fs: Some(fs),
                    },
                ),
                None => refuse_fs(t.as_str()),
            },
        },
        Request::CreateEncryptedPartition {
            disk,
            size,
            passphrase,
            fs_type,
        } => match FilesystemType::from_name(fs_type.as_str()) {
            Some(fs) => Handling::Accepted(
                Job::CreateEncryptedPartition {
                    disk: copy(disk.as_str()),
                    size: copy(size.as_str()),
                    passphrase: copy(passphrase.as_str()),
                    fs,
                },
            ),
            None => refuse_fs(fs_type.as_str()),
        },
        Request::DeletePartition { partition } => Handling::Accepted(
            Job::DeletePartition { partition: copy(partition.as_str()) },
        ),
        Request::ResizePartition { partition, new_size } => Handling::Accepted(
            Job::ResizePartition {
                partition: copy(partition.as_str()),
                new_size: copy(new_size.as_str()),
            },
        ),
        Request::UnlockLuks { device, passphrase, mapper_name } => Handling::Accepted(
            Job::UnlockLuks {
                device: copy(device.as_str()),
                passphrase: copy(passphrase.as_str()),
                mapper_name: copy(mapper_name.as_str()),
            },
        ),
        Request::LockLuks { mapper_name } => Handling::Accepted(
            Job::LockLuks { mapper_name: copy(mapper_name.as_str()) },
        ),
        Request::EncryptPartition { partition, passphrase } => Handling::Accepted(
            Job::EncryptPartition {
                partition: copy(partition.as_str()),
                passphrase: copy(passphrase.as_str()),
            },
        ),
        Request::EncryptAndFormat {
            partition,
            passphrase,
            fs_type,
        } => match FilesystemType::from_name(fs_type.as_str()) {
            Some(fs) => Handling::Accepted(
                Job::EncryptAndFormat {
                    partition: copy(partition.as_str()),
                    passphrase: copy(passphrase.as_str()),
                    fs,
                },
            ),
            None => refuse_fs(fs_type.as_str()),
        },
        Request::Shutdown => Handling::Shutdown,
    }
}

/// What is answered to a line that is no request.
pub open spec fn malformed(reason: Seq<char>) -> ResponseView {
    ResponseView::Error { message: "Invalid request: "@ + reason }
}

/// The response to a line that is no request; the helper then goes on with
/// the next line.
pub fn invalid_request(reason: &str) -> (r: Response)
    ensures
        r@ == malformed(reason@),
{
    Response::error(join2("Invalid request: ", reason).as_str())
}

} // verus!
