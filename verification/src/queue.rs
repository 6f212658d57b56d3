//! The server-side download queue: a per-user, per-device queue of items
//! that the server transcodes asynchronously and durably. The client pulls
//! item state by re-fetching; there is no push channel.

use vstd::prelude::*;
use vstd::string::StringExecFns;
use crate::decision::{DecisionResult, DIRECT_PLAY_NOT_CHOSEN};
use crate::error::Error;
use crate::media::{ContainerFormat, Protocol};
use crate::profile::{get_transcode_params, spec_transcode_params, Context, TranscodeOptions};
use crate::query::Query;
use crate::request::{Method, RequestBuilder, TimeoutPolicy};
use crate::session::TranscodeSessionStats;
use crate::text::{all_dec_digits, dec_val, parse_u64, spec_dec, u32_to_string};

verus! {

/// Lifecycle of a queue item. Deciding and Waiting are pre-start states;
/// Processing carries live transcode stats; Available means the rendition
/// is ready; Error and Expired are terminal.
#[derive(Debug, Clone, Copy, PartialEq, Eq, Structural)]
pub enum QueueItemStatus {
    /// The server is deciding whether to transcode this item or not.
    Deciding,
    /// The item is waiting in the queue to be transcoded.
    Waiting,
    /// The item is currently being transcoded.
    Processing,
    /// The item is available for download. Either transcoding is complete
    /// or was not required.
    Available,
    /// An error occurred.
    Error,
    /// The transcoded item has timed out and is no longer available.
    Expired,
}

/// One queue as the create endpoint reports it.
#[derive(Debug, Clone, Copy, PartialEq, Eq, Structural)]
pub struct QueueSpec {
    pub id: u32,
}

/// One entry of the add endpoint's response: the media key it concerns and
/// the item id the server assigned (pre-existing when the same key and
/// options were added before).
#[derive(Debug, Clone, PartialEq, Eq)]
pub struct QueueAddedItem {
    pub key: String,
    pub id: u32,
}

/// One queue item's state as the item endpoints report it.
#[derive(Debug, Clone, PartialEq, Eq)]
pub struct QueueItemState {
    pub id: u32,
    pub queue_id: u32,
    pub key: String,
    pub status: QueueItemStatus,
    pub error: Option<String>,
    pub decision_result: DecisionResult,
    pub session_stats: Option<TranscodeSessionStats>,
}

/// The queue items path.
pub open spec fn spec_items_path(queue_id: u32) -> Seq<char> {
    "/downloadQueue/"@ + spec_dec(queue_id as nat) + "/items"@
}

/// The path of one queue item.
pub open spec fn spec_item_path(queue_id: u32, item_id: u32) -> Seq<char> {
    "/downloadQueue/"@ + spec_dec(queue_id as nat) + "/items/"@ + spec_dec(item_id as nat)
}

/// The download path of one queue item.
pub open spec fn spec_download_path(queue_id: u32, item_id: u32) -> Seq<char> {
    spec_item_path(queue_id, item_id) + "/download"@
}

/// The add path of a queue.
pub open spec fn spec_add_path(queue_id: u32) -> Seq<char> {
    "/downloadQueue/"@ + spec_dec(queue_id as nat) + "/add"@
}

fn items_path(queue_id: u32) -> (s: String)
    ensures
        s@ == spec_items_path(queue_id),
{
    let mut s = String::from_str("/downloadQueue/");
    let qid = u32_to_string(queue_id);
    s.append(qid.as_str());
    s.append("/items");
    s
}

fn item_path(queue_id: u32, item_id: u32) -> (s: String)
    ensures
        s@ == spec_item_path(queue_id, item_id),
{
    let mut s = String::from_str("/downloadQueue/");
    let qid = u32_to_string(queue_id);
    s.append(qid.as_str());
    s.append("/items/");
    let iid = u32_to_string(item_id);
    s.append(iid.as_str());
    s
}

/// A download queue on the server.
///
/// Each server maintains one download queue per user per device; the
/// scoping identity lives in the client configuration that the driver
/// sends with every request.
#[derive(Debug, Clone, Copy, PartialEq, Eq, Structural)]
pub struct DownloadQueue {
    pub id: u32,
}

/// The first id at or after `i` whose entry carries `key`.
pub open spec fn first_added_id_from(items: Seq<QueueAddedItem>, key: Seq<char>, i: int) -> Option<
    u32,
>
    decreases items.len() - i,
{
    if i < 0 || i >= items.len() {
        None
    } else if items[i].key@ == key {
        Some(items[i].id)
    } else {
        first_added_id_from(items, key, i + 1)
    }
}

proof fn lemma_first_added_skip(items: Seq<QueueAddedItem>, key: Seq<char>, i: int)
    requires
        0 <= i <= items.len(),
        forall|j: int| 0 <= j < i ==> (#[trigger] items[j]).key@ != key,
    ensures
        first_added_id_from(items, key, 0) == first_added_id_from(items, key, i),
    decreases i,
{
    if i > 0 {
        lemma_first_added_skip(items, key, i - 1);
    }
}

/// Law: queue-item addition is idempotent on the client side. The resolved
/// item id is a pure function of the add response and the metadata key: it
/// is the id the server already pairs with that key. Two adds of the same
/// (key, options) that the server answers with the same pairing therefore
/// resolve to the same item id.
pub proof fn lemma_add_item_idempotent(items: Seq<QueueAddedItem>, key: Seq<char>, i: int)
    requires
        0 <= i < items.len(),
        items[i].key@ == key,
        forall|j: int| 0 <= j < i ==> (#[trigger] items[j]).key@ != key,
    ensures
        first_added_id_from(items, key, 0) == Some(items[i].id),
{
    lemma_first_added_skip(items, key, i);
}

impl DownloadQueue {
    /// The request that fetches or creates the caller's queue. Creation is
    /// idempotent: when a queue exists the server returns its id.
    pub fn create_request() -> (r: RequestBuilder)
        ensures
            r.method == Method::Post,
            r.path@ == "/downloadQueue"@,
            r.query@ == Seq::<(Seq<char>, Seq<char>)>::empty(),
            r.spec_headers() == Seq::<(Seq<char>, Seq<char>)>::empty(),
            r.body is None,
            r.timeout == TimeoutPolicy::DefaultTimeout,
    {
        RequestBuilder::new(Method::Post, String::from_str("/downloadQueue"))
    }

    /// Resolves the create response: the first reported queue is the
    /// caller's; a response without one names no queue to work with.
    pub fn get_or_create(queues: &Vec<QueueSpec>) -> (r: Result<DownloadQueue, Error>)
        ensures
            queues@.len() > 0 ==> r == Ok::<DownloadQueue, Error>(
                DownloadQueue { id: queues@[0].id },
            ),
            queues@.len() == 0 ==> r == Err::<DownloadQueue, Error>(Error::ItemNotFound),
    {
        if queues.len() > 0 {
            Ok(DownloadQueue { id: queues[0].id })
        } else {
            Err(Error::ItemNotFound)
        }
    }

    /// The request that lists the items in this download queue.
    pub fn items_request(&self) -> (r: RequestBuilder)
        ensures
            r.method == Method::Get,
            r.path@ == spec_items_path(self.id),
            r.query@ == Seq::<(Seq<char>, Seq<char>)>::empty(),
            r.spec_headers() == Seq::<(Seq<char>, Seq<char>)>::empty(),
            r.body is None,
            r.timeout == TimeoutPolicy::DefaultTimeout,
    {
        RequestBuilder::new(Method::Get, items_path(self.id))
    }

    /// Wraps the fetched item states as queue items.
    pub fn items(&self, states: Vec<QueueItemState>) -> (r: Vec<QueueItem>)
        ensures
            r@.len() == states@.len(),
            forall|i: int| 0 <= i < states@.len() ==> (#[trigger] r@[i]).state == states@[i],
    {
        let mut r: Vec<QueueItem> = Vec::new();
        let mut states = states;
        let ghost orig = states@;
        let n = states.len();
        let mut i: usize = 0;
        while i < n
            invariant
                i <= n,
                n == orig.len(),
                states@ == orig.subrange(i as int, n as int),
                r@.len() == i,
                forall|j: int| 0 <= j < i ==> (#[trigger] r@[j]).state == orig[j],
            decreases n - i,
        {
            let state = states.remove(0);
            proof {
                assert(state == orig[i as int]);
            }
            r.push(QueueItem { state });
            proof {
                assert(states@ =~= orig.subrange(i + 1 as int, n as int));
            }
            i = i + 1;
        }
        r
    }

    /// The request that fetches one item of this queue by its id.
    pub fn item_request(&self, id: u32) -> (r: RequestBuilder)
        ensures
            r.method == Method::Get,
            r.path@ == spec_item_path(self.id, id),
            r.query@ == Seq::<(Seq<char>, Seq<char>)>::empty(),
            r.spec_headers() == Seq::<(Seq<char>, Seq<char>)>::empty(),
            r.body is None,
            r.timeout == TimeoutPolicy::DefaultTimeout,
    {
        RequestBuilder::new(Method::Get, item_path(self.id, id))
    }

    /// Resolves an item fetch response: the first reported state, or "item
    /// not found" when the server reports none.
    pub fn item(&self, states: Vec<QueueItemState>) -> (r: Result<QueueItem, Error>)
        ensures
            states@.len() > 0 ==> (r matches Ok(item) && item.state == states@[0]),
            states@.len() == 0 ==> r == Err::<QueueItem, Error>(Error::ItemNotFound),
    {
        let mut states = states;
        if states.len() > 0 {
            let state = states.remove(0);
            Ok(QueueItem { state })
        } else {
            Err(Error::ItemNotFound)
        }
    }

    /// The request that adds a media item to this queue with the given
    /// transcode options: the full negotiation parameter set in `Static`
    /// context over HTTP, plus the metadata key as both `keys` and `path`.
    ///
    /// The add response does not carry full item state; the caller must
    /// re-fetch the item by the id that [`Self::match_added_item`]
    /// resolves.
    pub fn add_item_request(
        &self,
        session_id: &str,
        media_index: Option<u32>,
        part_index: Option<u32>,
        options: &TranscodeOptions,
        metadata_key: &str,
    ) -> (r: RequestBuilder)
        requires
            options.wf(),
        ensures
            r.method == Method::Post,
            r.path@ == spec_add_path(self.id),
            r.query@ == spec_transcode_params(
                session_id@,
                Context::Static,
                Protocol::Http,
                media_index,
                part_index,
                *options,
            ).push(("keys"@, metadata_key@)).push(("path"@, metadata_key@)),
            r.spec_headers() == Seq::<(Seq<char>, Seq<char>)>::empty(),
            r.body is None,
            r.timeout == TimeoutPolicy::DefaultTimeout,
    {
        let params = get_transcode_params(
            session_id,
            Context::Static,
            Protocol::Http,
            media_index,
            part_index,
            options,
        ).param("keys", metadata_key).param("path", metadata_key);
        let mut s = String::from_str("/downloadQueue/");
        let qid = u32_to_string(self.id);
        s.append(qid.as_str());
        s.append("/add");
        RequestBuilder::new(Method::Post, s).with_query(params)
    }

    /// Resolves the add response to the item id the server paired with the
    /// metadata key: the first entry carrying the key. A response without
    /// the key names no item to re-fetch.
    pub fn match_added_item(items: &Vec<QueueAddedItem>, metadata_key: &str) -> (r: Result<
        u32,
        Error,
    >)
        ensures
            first_added_id_from(items@, metadata_key@, 0) matches Some(id) ==> r == Ok::<
                u32,
                Error,
            >(id),
            first_added_id_from(items@, metadata_key@, 0) is None ==> r == Err::<u32, Error>(
                Error::ItemNotFound,
            ),
    {
        let n = items.len();
        let mut i: usize = 0;
        while i < n
            invariant
                i <= n,
                n == items@.len(),
                first_added_id_from(items@, metadata_key@, 0) == first_added_id_from(
                    items@,
                    metadata_key@,
                    i as int,
                ),
            decreases n - i,
        {
            if crate::text::str_eq(items[i].key.as_str(), metadata_key) {
                return Ok(items[i].id);
            }
            i = i + 1;
        }
        Err(Error::ItemNotFound)
    }
}

/// One bound of a requested byte range.
#[derive(Debug, Clone, Copy, PartialEq, Eq, Structural)]
pub enum ByteBound {
    Included(u64),
    Excluded(u64),
    Unbounded,
}

/// The first requested byte.
pub open spec fn spec_range_start(b: ByteBound) -> int {
    match b {
        ByteBound::Included(v) => v as int,
        ByteBound::Excluded(v) => v as int + 1,
        ByteBound::Unbounded => 0,
    }
}

/// The last requested byte, when the range is bounded above.
pub open spec fn spec_range_end(b: ByteBound) -> Option<int> {
    match b {
        ByteBound::Included(v) => Some(v as int),
        ByteBound::Excluded(v) => Some(v as int - 1),
        ByteBound::Unbounded => None,
    }
}

/// The `Range` header value a byte range asks for: `bytes=<start>-<end>`,
/// the end empty for a half-open range, and no header at all for the full
/// range.
pub open spec fn spec_range_header(start: ByteBound, end: ByteBound) -> Option<Seq<char>> {
    if spec_range_start(start) == 0 && spec_range_end(end) is None {
        None
    } else {
        Some(
            "bytes="@ + spec_dec(spec_range_start(start) as nat) + seq!['-'] + (
            match spec_range_end(end) {
                Some(v) => spec_dec(v as nat),
                None => Seq::<char>::empty(),
            }),
        )
    }
}

/// An item in a download queue.
#[derive(Debug)]
pub struct QueueItem {
    pub state: QueueItemState,
}

impl QueueItem {
    pub fn id(&self) -> (r: u32)
        ensures
            r == self.state.id,
    {
        self.state.id
    }

    /// The queue this item belongs to.
    pub fn queue(&self) -> (r: DownloadQueue)
        ensures
            r == (DownloadQueue { id: self.state.queue_id }),
    {
        DownloadQueue { id: self.state.queue_id }
    }

    /// The metadata key of the media this item transcodes.
    pub fn key(&self) -> (r: &str)
        ensures
            r@ == self.state.key@,
    {
        self.state.key.as_str()
    }

    pub fn status(&self) -> (r: QueueItemStatus)
        ensures
            r == self.state.status,
    {
        self.state.status
    }

    /// If this item is currently being transcoded this will return the
    /// current transcode stats.
    pub fn stats(&self) -> (r: Option<&TranscodeSessionStats>)
        ensures
            r matches Some(s) ==> self.state.session_stats == Some(*s),
            r is None <==> self.state.session_stats is None,
    {
        match &self.state.session_stats {
            Some(s) => Some(s),
            None => None,
        }
    }

    /// If the status is an error this may reveal more information.
    pub fn error(&self) -> (r: Option<&str>)
        ensures
            r matches Some(e) ==> (self.state.error matches Some(s) && s@ == e@),
            r is None <==> self.state.error is None,
    {
        match &self.state.error {
            Some(e) => Some(e.as_str()),
            None => None,
        }
    }

    /// Returns true if this item was or is being transcoded. If false then
    /// downloading will just download the original media file.
    pub fn is_transcode(&self) -> (r: bool)
        ensures
            r <==> self.state.decision_result.direct_play_decision_code != Some(
                DIRECT_PLAY_NOT_CHOSEN,
            ),
    {
        match self.state.decision_result.direct_play_decision_code {
            Some(code) => code != DIRECT_PLAY_NOT_CHOSEN,
            None => true,
        }
    }

    /// The HEAD request that probes the download endpoint. The probe's
    /// headers recover what the stats endpoint stops exposing once a
    /// transcode completes: the rendition's container (from the filename in
    /// `Content-Disposition`) and its length (from `Content-Length`).
    pub fn download_head_request(&self) -> (r: RequestBuilder)
        ensures
            r.method == Method::Head,
            r.path@ == spec_download_path(self.state.queue_id, self.state.id),
            r.query@ == Seq::<(Seq<char>, Seq<char>)>::empty(),
            r.spec_headers() == Seq::<(Seq<char>, Seq<char>)>::empty(),
            r.body is None,
            r.timeout == TimeoutPolicy::DefaultTimeout,
    {
        let mut s = item_path(self.state.queue_id, self.state.id);
        s.append("/download");
        RequestBuilder::new(Method::Head, s)
    }

    /// Replaces this item's state with a re-fetched one: the only way state
    /// transitions are observed.
    pub fn update(&mut self, state: QueueItemState)
        ensures
            final(self).state == state,
    {
        self.state = state;
    }

    /// The request that downloads this item, for an arbitrary byte range.
    /// When any bound is set the request carries a `Range: bytes=...`
    /// header; the timeout is disabled, since the media may be large and
    /// the server-side latency unknown.
    pub fn download_request(&self, start: ByteBound, end: ByteBound) -> (r: RequestBuilder)
        requires
            start matches ByteBound::Excluded(v) ==> v < u64::MAX,
            end matches ByteBound::Excluded(v) ==> v > 0,
        ensures
            r.method == Method::Get,
            r.path@ == spec_download_path(self.state.queue_id, self.state.id),
            r.query@ == Seq::<(Seq<char>, Seq<char>)>::empty(),
            r.spec_headers() == (match spec_range_header(start, end) {
                Some(v) => seq![("Range"@, v)],
                None => Seq::<(Seq<char>, Seq<char>)>::empty(),
            }),
            r.body is None,
            r.timeout == TimeoutPolicy::NoTimeout,
    {
        let mut path = item_path(self.state.queue_id, self.state.id);
        path.append("/download");
        let mut r = RequestBuilder::new(Method::Get, path).timeout(TimeoutPolicy::NoTimeout);
        let start_byte: u64 = match start {
            ByteBound::Included(v) => v,
            ByteBound::Excluded(v) => v + 1,
            ByteBound::Unbounded => 0,
        };
        let end_byte: Option<u64> = match end {
            ByteBound::Included(v) => Some(v),
            ByteBound::Excluded(v) => Some(v - 1),
            ByteBound::Unbounded => None,
        };
        if start_byte != 0 || end_byte.is_some() {
            let mut value = String::from_str("bytes=");
            let sb = crate::text::u64_to_string(start_byte);
            value.append(sb.as_str());
            crate::text::push_char(&mut value, '-');
            match end_byte {
                Some(v) => {
                    let eb = crate::text::u64_to_string(v);
                    value.append(eb.as_str());
                },
                None => {},
            }
            proof {
                assert(Some(value@) == spec_range_header(start, end));
            }
            r = r.header("Range", value.as_str());
        }
        r
    }

    /// The request that deletes this item from the queue. The queue itself
    /// continues to exist even when emptied.
    pub fn delete_request(&self) -> (r: RequestBuilder)
        ensures
            r.method == Method::Delete,
            r.path@ == spec_item_path(self.state.queue_id, self.state.id),
            r.query@ == Seq::<(Seq<char>, Seq<char>)>::empty(),
            r.spec_headers() == Seq::<(Seq<char>, Seq<char>)>::empty(),
            r.body is None,
            r.timeout == TimeoutPolicy::DefaultTimeout,
    {
        RequestBuilder::new(Method::Delete, item_path(self.state.queue_id, self.state.id))
    }
}

/// What a filename splits into at its last dot: the stem and, when a dot
/// exists, the extension after it. The exact split of the whole
/// `Content-Disposition` grammar is the outside parser's; this name stands
/// for its result on a given header.
pub uninterp spec fn disposition_filename_parts(header: Seq<char>) -> Option<
    (Seq<char>, Option<Seq<char>>),
>;

/// Relies on `content_disposition::parse_content_disposition` and
/// `ParsedContentDisposition::filename`: parses a `Content-Disposition`
/// header and splits its `filename` parameter at the last dot into stem
/// and extension. The result depends on the header characters alone.
#[verifier::external_body]
fn disposition_filename(header: &str) -> (r: Option<(String, Option<String>)>)
    ensures
        r.deep_view() == disposition_filename_parts(header@),
{
    content_disposition::parse_content_disposition(header).filename()
}

/// Interprets the HEAD probe for the rendition's container format: on
/// success the filename extension of `Content-Disposition` names the
/// container; 503 means the transcode is not finished, never a decode
/// failure; a missing or unsplittable header is a header fault.
///
/// `disposition` is the `Content-Disposition` header when present and
/// readable as text; `content` is the raw body for the diagnostic error.
pub fn container_from_response(
    status_code: u16,
    disposition: Option<&str>,
    content: String,
) -> (r: Result<ContainerFormat, Error>)
    ensures
        status_code == 503 ==> r == Err::<ContainerFormat, Error>(Error::TranscodeIncomplete),
        status_code == 200 ==> (match disposition {
            Some(h) => (match disposition_filename_parts(h@) {
                Some(parts) => (match parts.1 {
                    Some(ext) => (match ContainerFormat::spec_from_extension(ext) {
                        Some(c) => r == Ok::<ContainerFormat, Error>(c),
                        None => (r matches Err(e) && e matches Error::UnknownContainerFormat(s)
                            && s@ == ext),
                    }),
                    None => r == Err::<ContainerFormat, Error>(Error::InvalidHeaderValue),
                }),
                None => r == Err::<ContainerFormat, Error>(Error::InvalidHeaderValue),
            }),
            None => r == Err::<ContainerFormat, Error>(Error::InvalidHeaderValue),
        }),
        status_code != 200 && status_code != 503 ==> r == Err::<ContainerFormat, Error>(
            Error::UnexpectedApiResponse { status_code, content },
        ),
{
    if status_code == 200 {
        match disposition {
            Some(h) => {
                match disposition_filename(h) {
                    Some((_stem, Some(ext))) => {
                        match ContainerFormat::from_extension(ext.as_str()) {
                            Some(c) => Ok(c),
                            None => Err(Error::UnknownContainerFormat(ext)),
                        }
                    },
                    Some((_stem, None)) => Err(Error::InvalidHeaderValue),
                    None => Err(Error::InvalidHeaderValue),
                }
            },
            None => Err(Error::InvalidHeaderValue),
        }
    } else if status_code == 503 {
        Err(Error::TranscodeIncomplete)
    } else {
        Err(Error::UnexpectedApiResponse { status_code, content })
    }
}

/// Interprets the HEAD probe for the download's length: a present,
/// all-digits `Content-Length` that fits 64 bits is the length; a missing
/// or unparseable one degrades to "unknown length" rather than an error;
/// 503 means the transcode is not finished.
pub fn content_length_from_response(
    status_code: u16,
    content_length: Option<&str>,
    content: String,
) -> (r: Result<Option<u64>, Error>)
    ensures
        status_code == 503 ==> r == Err::<Option<u64>, Error>(Error::TranscodeIncomplete),
        status_code == 200 ==> (match content_length {
            Some(h) => (if h@.len() > 0 && all_dec_digits(h@) && dec_val(h@) <= u64::MAX {
                r == Ok::<Option<u64>, Error>(Some(dec_val(h@) as u64))
            } else {
                r == Ok::<Option<u64>, Error>(None::<u64>)
            }),
            None => r == Ok::<Option<u64>, Error>(None::<u64>),
        }),
        status_code != 200 && status_code != 503 ==> r == Err::<Option<u64>, Error>(
            Error::UnexpectedApiResponse { status_code, content },
        ),
{
    if status_code == 200 {
        match content_length {
            Some(h) => Ok(parse_u64(h)),
            None => Ok(None),
        }
    } else if status_code == 503 {
        Err(Error::TranscodeIncomplete)
    } else {
        Err(Error::UnexpectedApiResponse { status_code, content })
    }
}

/// Interprets the response of a queue-item download: 200 and 206 are both
/// success (whole file or requested range); 503 means the transcode is not
/// finished; anything else is the generic protocol error.
pub fn download_outcome(status_code: u16, content: String) -> (r: Result<(), Error>)
    ensures
        (status_code == 200 || status_code == 206) ==> r == Ok::<(), Error>(()),
        status_code == 503 ==> r == Err::<(), Error>(Error::TranscodeIncomplete),
        !(status_code == 200 || status_code == 206 || status_code == 503) ==> r == Err::<(), Error>(
            Error::UnexpectedApiResponse { status_code, content },
        ),
{
    if status_code == 200 || status_code == 206 {
        Ok(())
    } else if status_code == 503 {
        Err(Error::TranscodeIncomplete)
    } else {
        Err(Error::UnexpectedApiResponse { status_code, content })
    }
}

} // verus!
