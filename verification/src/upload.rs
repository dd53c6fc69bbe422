//! Upload orchestration: drain a multipart stream field by field, buffer the
//! first content-bearing field, submit it to the object store under a fresh
//! key, and only after a successful write ask for a caption of the stored
//! object's public URL. Every partial-failure combination maps to one exact
//! reply.

use vstd::prelude::*;

verus! {

/// An HTTP reply: a status code and an exact body.
pub struct HttpReply {
    pub status: u16,
    pub body: String,
}

/// The characters a hyphenated identifier rendering is made of: lower-case
/// hexadecimal digits and the group separator.
pub open spec fn uuid_char(c: char) -> bool {
    c == '-' || ('0' <= c && c <= '9') || ('a' <= c && c <= 'f')
}

/// Relies on `uuid::Uuid::new_v4` and its `Display` form: a freshly drawn
/// random identifier, rendered hyphenated as exactly 36 characters, all of
/// them lower-case hex digits or hyphens. Nothing is assumed about which
/// identifier comes back.
#[verifier::external_body]
fn uuid_v4_string() -> (r: String)
    ensures
        r@.len() == 36,
        forall|i: int| 0 <= i < 36 ==> uuid_char(#[trigger] r@[i]),
{
    uuid::Uuid::new_v4().to_string()
}

/// A fresh storage key: a newly generated 36-character identifier followed
/// by the fixed `.jpg` suffix. The key is never derived from the uploaded
/// bytes or from a client-supplied filename, and it holds no path
/// separator.
pub fn new_object_key() -> (k: String)
    ensures
        k@.len() == 40,
        k@.subrange(36, 40) == ".jpg"@,
        forall|i: int| 0 <= i < k@.len() ==> #[trigger] k@[i] != '/',
{
    let mut k = uuid_v4_string();
    let ghost u: Seq<char> = k@;
    k.append(".jpg");
    proof {
        reveal_strlit(".jpg");
        assert(k@.subrange(36, 40) =~= ".jpg"@);
        assert forall|i: int| 0 <= i < k@.len() implies #[trigger] k@[i] != '/' by {
            if i < 36 {
                assert(k@[i] == u[i]);
                assert(uuid_char(u[i]));
            } else {
                assert(k@[i] == ".jpg"@[i - 36]);
            }
        }
    }
    k
}

/// The public URL of a stored object, from the bucket and the key. The
/// region segment is a fixed deployment constant.
pub open spec fn object_url(bucket: Seq<char>, key: Seq<char>) -> Seq<char> {
    "https://"@ + bucket + ".s3.ap-south-1.amazonaws.com/"@ + key
}

/// Where one upload stands between two stream or collaborator events.
pub enum UploadPhase {
    /// Still looking for the first field that yields a chunk.
    Scanning,
    /// The first content-bearing field is being accumulated.
    Buffering,
    /// The buffered bytes were handed out for the storage write.
    AwaitingStore,
    /// The storage write succeeded; the caption query is out.
    AwaitingCaption,
    /// A reply has been produced; no further event is expected.
    Finished,
}

/// What the caller must do next with the outside collaborators.
pub enum UploadAction {
    /// Keep feeding stream events.
    Continue,
    /// Write `data` to the object store under `(bucket, key)`, then report
    /// the result through `on_store_result`.
    Put { bucket: String, key: String, data: Vec<u8> },
    /// Resolve a caption for the stored object at `url`, then report the
    /// outcome through `on_caption_result`.
    Caption { url: String },
    /// Send this reply; the upload is over.
    Reply(HttpReply),
}

/// One upload in progress. The caller feeds it the events of the multipart
/// stream and the results of the storage write and the caption query; the
/// machine decides everything else.
pub struct Upload {
    /// Destination bucket, fixed at construction.
    pub bucket: String,
    /// The storage key generated for this upload.
    pub key: String,
    /// Bytes of the first content-bearing field, in arrival order.
    pub data: Vec<u8>,
    /// Where the upload stands.
    pub phase: UploadPhase,
    /// Whether the object store has acknowledged the write.
    pub stored: Ghost<bool>,
}

impl Upload {
    /// Valid states. In particular a caption query can only be outstanding
    /// once the storage write has succeeded, and while fields are still
    /// being scanned nothing has been buffered.
    pub open spec fn wf(self) -> bool {
        &&& (self.phase is AwaitingCaption ==> self.stored@)
        &&& (self.phase is Scanning ==> self.data@.len() == 0)
        &&& self.key@.len() == 40
        &&& self.key@.subrange(36, 40) == ".jpg"@
    }

    /// Start one upload. A missing bucket name fails fast, before any of
    /// the stream is read and before anything is written: the reply is the
    /// configuration error. Otherwise a fresh key is generated and the
    /// machine waits for stream events.
    pub fn begin(bucket: Option<String>) -> (r: Result<Upload, HttpReply>)
        ensures
            match r {
                Ok(u) => {
                    &&& bucket is Some
                    &&& u.wf()
                    &&& u.phase is Scanning
                    &&& u.bucket@ == bucket->0@
                    &&& !u.stored@
                },
                Err(e) => {
                    &&& bucket is None
                    &&& e.status == 500
                    &&& e.body@ == "Server error: missing bucket name."@
                },
            },
    {
        match bucket {
            Some(b) => Ok(
                Upload {
                    bucket: b,
                    key: new_object_key(),
                    data: Vec::new(),
                    phase: UploadPhase::Scanning,
                    stored: Ghost(false),
                },
            ),
            None => Err(
                HttpReply {
                    status: 500,
                    body: String::from_str("Server error: missing bucket name."),
                },
            ),
        }
    }

    /// A chunk of the current field arrived. The first chunk makes the
    /// field the one whose bytes are kept; every chunk is appended in
    /// arrival order.
    pub fn on_chunk(&mut self, chunk: Vec<u8>)
        requires
            old(self).wf(),
            old(self).phase is Scanning || old(self).phase is Buffering,
        ensures
            final(self).wf(),
            final(self).phase is Buffering,
            final(self).data@ == old(self).data@ + chunk@,
            final(self).bucket == old(self).bucket,
            final(self).key == old(self).key,
            final(self).stored == old(self).stored,
    {
        let mut c = chunk;
        self.data.append(&mut c);
        self.phase = UploadPhase::Buffering;
    }

    /// A chunk of the stream failed to read. The upload is aborted at once:
    /// the partially accumulated bytes are discarded, nothing is written,
    /// and the reply is the stream-error response.
    pub fn on_chunk_error(&mut self) -> (r: HttpReply)
        requires
            old(self).wf(),
            old(self).phase is Scanning || old(self).phase is Buffering,
        ensures
            final(self).wf(),
            final(self).phase is Finished,
            final(self).data@.len() == 0,
            final(self).bucket == old(self).bucket,
            final(self).key == old(self).key,
            r.status == 400,
            r.body@ == "Error reading file chunk."@,
    {
        self.data = Vec::new();
        self.phase = UploadPhase::Finished;
        HttpReply { status: 400, body: String::from_str("Error reading file chunk.") }
    }

    /// The current field is exhausted. A field that yielded no chunk is
    /// skipped and scanning goes on; the first content-bearing field is
    /// complete and its full buffer goes out to the object store under the
    /// generated key.
    pub fn on_field_end(&mut self) -> (r: UploadAction)
        requires
            old(self).wf(),
            old(self).phase is Scanning || old(self).phase is Buffering,
        ensures
            final(self).wf(),
            final(self).bucket == old(self).bucket,
            final(self).key == old(self).key,
            final(self).stored == old(self).stored,
            old(self).phase is Scanning ==> final(self).phase is Scanning && r is Continue,
            old(self).phase is Buffering ==> {
                &&& final(self).phase is AwaitingStore
                &&& r matches UploadAction::Put { bucket, key, data }
                    && bucket == old(self).bucket
                    && key == old(self).key
                    && data@ == old(self).data@
            },
    {
        match self.phase {
            UploadPhase::Scanning => UploadAction::Continue,
            _ => {
                let mut data: Vec<u8> = Vec::new();
                core::mem::swap(&mut data, &mut self.data);
                self.phase = UploadPhase::AwaitingStore;
                UploadAction::Put {
                    bucket: self.bucket.clone(),
                    key: self.key.clone(),
                    data,
                }
            },
        }
    }

    /// The stream ended without any field yielding a chunk: the request
    /// carried no file, and the reply says so.
    pub fn on_stream_end(&mut self) -> (r: HttpReply)
        requires
            old(self).wf(),
            old(self).phase is Scanning,
        ensures
            final(self).wf(),
            final(self).phase is Finished,
            final(self).bucket == old(self).bucket,
            final(self).key == old(self).key,
            r.status == 400,
            r.body@ == "No file uploaded."@,
    {
        self.phase = UploadPhase::Finished;
        HttpReply { status: 400, body: String::from_str("No file uploaded.") }
    }

    /// The object store answered the write. On failure the upload stops
    /// with the storage error — no caption query is ever issued for an
    /// object that was not stored. On success the caption query goes out
    /// for the object's public URL.
    pub fn on_store_result(&mut self, ok: bool) -> (r: UploadAction)
        requires
            old(self).wf(),
            old(self).phase is AwaitingStore,
        ensures
            final(self).wf(),
            final(self).bucket == old(self).bucket,
            final(self).key == old(self).key,
            final(self).stored@ == ok,
            !ok ==> {
                &&& final(self).phase is Finished
                &&& r matches UploadAction::Reply(e)
                    && e.status == 500
                    && e.body@ == "Upload to S3 failed."@
            },
            ok ==> {
                &&& final(self).phase is AwaitingCaption
                &&& r matches UploadAction::Caption { url }
                    && url@ == object_url(old(self).bucket@, old(self).key@)
            },
    {
        if ok {
            let mut url = String::from_str("https://");
            url.append(self.bucket.as_str());
            url.append(".s3.ap-south-1.amazonaws.com/");
            url.append(self.key.as_str());
            self.phase = UploadPhase::AwaitingCaption;
            self.stored = Ghost(true);
            UploadAction::Caption { url }
        } else {
            self.phase = UploadPhase::Finished;
            self.stored = Ghost(false);
            UploadAction::Reply(
                HttpReply { status: 500, body: String::from_str("Upload to S3 failed.") },
            )
        }
    }

    /// The caption query came back. Storage success is never downgraded:
    /// either way the reply is a success response, carrying the caption
    /// when one was resolved and the caption-failed note when none was.
    pub fn on_caption_result(&mut self, caption: Option<String>) -> (r: HttpReply)
        requires
            old(self).wf(),
            old(self).phase is AwaitingCaption,
        ensures
            final(self).wf(),
            final(self).phase is Finished,
            r.status == 200,
            match caption {
                Some(c) => r.body@ == "Uploaded + Caption: "@ + old(self).key@ + "\n"@ + c@,
                None => r.body@ == "Uploaded: "@ + old(self).key@ + ", but caption failed."@,
            },
    {
        self.phase = UploadPhase::Finished;
        match caption {
            Some(c) => {
                let mut body = String::from_str("Uploaded + Caption: ");
                body.append(self.key.as_str());
                body.append("\n");
                body.append(c.as_str());
                HttpReply { status: 200, body }
            },
            None => {
                let mut body = String::from_str("Uploaded: ");
                body.append(self.key.as_str());
                body.append(", but caption failed.");
                HttpReply { status: 200, body }
            },
        }
    }
}

/// The bytes a field's chunks amount to, concatenated in arrival order.
pub open spec fn chunks_bytes(chunks: Seq<Vec<u8>>) -> Seq<u8>
    decreases chunks.len(),
{
    if chunks.len() == 0 {
        Seq::<u8>::empty()
    } else {
        chunks_bytes(chunks.drop_last()) + chunks.last()@
    }
}

/// Position `f` holds the first content-bearing field of the request: it
/// yielded at least one chunk, and every field before it yielded none.
pub open spec fn first_content_at(fields: Seq<Vec<Vec<u8>>>, f: int) -> bool {
    &&& 0 <= f < fields.len()
    &&& fields[f]@.len() > 0
    &&& forall|i: int| 0 <= i < f ==> #[trigger] fields[i]@.len() == 0
}

/// An exact copy of a byte buffer.
fn copy_bytes(src: &Vec<u8>) -> (r: Vec<u8>)
    ensures
        r@ == src@,
{
    let n: usize = src.len();
    let mut r: Vec<u8> = Vec::new();
    let mut i: usize = 0;
    while i < n
        invariant
            i <= n,
            n == src@.len(),
            r@ == src@.take(i as int),
        decreases n - i,
    {
        r.push(src[i]);
        proof {
            assert(src@.take(i as int + 1) =~= src@.take(i as int).push(src@[i as int]));
        }
        i = i + 1;
    }
    proof {
        assert(src@.take(n as int) =~= src@);
    }
    r
}

/// Drain one fully materialized request, field by field and chunk by chunk,
/// as the stream handler does. A request with no content-bearing field ends
/// in the no-file reply; otherwise exactly the first content-bearing field
/// is buffered — later fields are never read — and its bytes go out to the
/// store in arrival order.
pub fn drain_request(u: &mut Upload, fields: &Vec<Vec<Vec<u8>>>) -> (r: UploadAction)
    requires
        old(u).wf(),
        old(u).phase is Scanning,
    ensures
        final(u).wf(),
        final(u).bucket == old(u).bucket,
        final(u).key == old(u).key,
        (forall|i: int| 0 <= i < fields@.len() ==> #[trigger] fields@[i]@.len() == 0) ==> {
            &&& r matches UploadAction::Reply(e)
                && e.status == 400
                && e.body@ == "No file uploaded."@
            &&& final(u).phase is Finished
        },
        forall|f: int| first_content_at(fields@, f) ==> {
            &&& r matches UploadAction::Put { bucket, key, data }
                && bucket == old(u).bucket
                && key == old(u).key
                && data@ == chunks_bytes(fields@[f]@)
            &&& final(u).phase is AwaitingStore
        },
{
    let nf: usize = fields.len();
    let mut k: usize = 0;
    while k < nf
        invariant
            u.wf(),
            u.phase is Scanning,
            u.bucket == old(u).bucket,
            u.key == old(u).key,
            k <= nf,
            nf == fields@.len(),
            forall|i: int| 0 <= i < k ==> #[trigger] fields@[i]@.len() == 0,
        decreases nf - k,
    {
        let m: usize = fields[k].len();
        if m > 0 {
            let mut j: usize = 0;
            while j < m
                invariant
                    u.wf(),
                    j <= m,
                    k < nf,
                    nf == fields@.len(),
                    m == fields@[k as int]@.len(),
                    j == 0 ==> u.phase is Scanning,
                    j > 0 ==> u.phase is Buffering,
                    u.data@ == chunks_bytes(fields@[k as int]@.take(j as int)),
                    u.bucket == old(u).bucket,
                    u.key == old(u).key,
                decreases m - j,
            {
                let chunk = copy_bytes(&fields[k][j]);
                u.on_chunk(chunk);
                proof {
                    let cs = fields@[k as int]@;
                    assert(cs.take(j as int + 1).drop_last() =~= cs.take(j as int));
                    assert(cs.take(j as int + 1).last() == cs[j as int]);
                }
                j = j + 1;
            }
            proof {
                assert(fields@[k as int]@.take(m as int) =~= fields@[k as int]@);
            }
            let act = u.on_field_end();
            proof {
                assert(first_content_at(fields@, k as int));
                assert forall|f: int| first_content_at(fields@, f) implies f == k as int by {
                    if f < k as int {
                        assert(fields@[f]@.len() == 0);
                    } else if f > k as int {
                        assert(fields@[k as int]@.len() == 0);
                    }
                }
            }
            return act;
        } else {
            u.on_field_end();
        }
        k = k + 1;
    }
    let reply = u.on_stream_end();
    UploadAction::Reply(reply)
}

/// A caption query is only ever outstanding for an object whose storage
/// write has succeeded: a storage failure short-circuits captioning.
pub proof fn lemma_caption_only_after_store(u: Upload)
    requires
        u.wf(),
        u.phase is AwaitingCaption,
    ensures
        u.stored@,
{
}

} // verus!
