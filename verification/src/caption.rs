//! Caption resolution: given an ordered list of candidate models, the first
//! model whose reply parses into a non-empty list of generated texts wins,
//! and its first text is the caption. When every model has been tried
//! without a usable reply, resolution fails.

use vstd::prelude::*;

verus! {

/// What one model attempt came back with, after the transport layer and the
/// response-body decoding have run.
pub enum ModelReply {
    /// The model could not be reached, timed out, or answered with a
    /// non-success HTTP status.
    Unavailable,
    /// The body came back but did not decode as a list of objects each
    /// carrying a generated-text string.
    Malformed,
    /// The body decoded as a list of generated texts, in response order.
    /// The list may be empty.
    Texts(Vec<String>),
}

/// A reply is usable exactly when it decoded as a non-empty list of texts.
pub open spec fn usable(r: ModelReply) -> bool {
    match r {
        ModelReply::Texts(v) => v@.len() > 0,
        _ => false,
    }
}

/// The caption a usable reply yields: the first generated text.
pub open spec fn caption_of(r: ModelReply) -> Seq<char>
    recommends
        usable(r),
{
    match r {
        ModelReply::Texts(v) => v@[0]@,
        _ => Seq::<char>::empty(),
    }
}

/// The outcome of trying a sequence of replies in priority order: the
/// caption of the first usable reply, or `None` when no reply is usable.
pub open spec fn resolve_spec(replies: Seq<ModelReply>) -> Option<Seq<char>>
    decreases replies.len(),
{
    if replies.len() == 0 {
        None
    } else if usable(replies[0]) {
        Some(caption_of(replies[0]))
    } else {
        resolve_spec(replies.drop_first())
    }
}

/// Order sensitivity: when the replies before position `k` are all unusable
/// and the reply at `k` is usable, resolution returns exactly the caption of
/// the reply at `k` — never a later one, even if later replies are usable too.
pub proof fn lemma_first_usable_wins(replies: Seq<ModelReply>, k: int)
    requires
        0 <= k < replies.len(),
        forall|i: int| 0 <= i < k ==> !usable(#[trigger] replies[i]),
        usable(replies[k]),
    ensures
        resolve_spec(replies) == Some(caption_of(replies[k])),
    decreases k,
{
    if k == 0 {
    } else {
        assert(!usable(replies[0]));
        let rest = replies.drop_first();
        assert forall|i: int| 0 <= i < k - 1 implies !usable(#[trigger] rest[i]) by {
            assert(rest[i] == replies[i + 1]);
        }
        assert(rest[k - 1] == replies[k]);
        lemma_first_usable_wins(rest, k - 1);
    }
}

/// Exhaustion: when no reply in the sequence is usable, resolution fails.
pub proof fn lemma_all_unusable_fails(replies: Seq<ModelReply>)
    requires
        forall|i: int| 0 <= i < replies.len() ==> !usable(#[trigger] replies[i]),
    ensures
        resolve_spec(replies) is None,
    decreases replies.len(),
{
    if replies.len() > 0 {
        let rest = replies.drop_first();
        assert forall|i: int| 0 <= i < rest.len() implies !usable(#[trigger] rest[i]) by {
            assert(rest[i] == replies[i + 1]);
        }
        lemma_all_unusable_fails(rest);
    }
}

/// Resolve a fully collected reply sequence in priority order.
///
/// The incremental path through `Resolver` below behaves the same way; this
/// form takes the replies all at once.
pub fn resolve_replies(replies: &Vec<ModelReply>) -> (r: Option<String>)
    ensures
        match r {
            Some(c) => resolve_spec(replies@) == Some(c@),
            None => resolve_spec(replies@) is None,
        },
{
    let n: usize = replies.len();
    let mut i: usize = 0;
    proof {
        assert(replies@.skip(0) =~= replies@);
    }
    while i < n
        invariant
            i <= n,
            n == replies@.len(),
            resolve_spec(replies@) == resolve_spec(replies@.skip(i as int)),
            forall|j: int| 0 <= j < i ==> !usable(#[trigger] replies@[j]),
        decreases n - i,
    {
        let usable_now: bool = match &replies[i] {
            ModelReply::Texts(v) => v.len() > 0,
            _ => false,
        };
        if usable_now {
            let c: String = match &replies[i] {
                ModelReply::Texts(v) => v[0].clone(),
                _ => String::new(),
            };
            proof {
                assert(replies@.skip(i as int)[0] == replies@[i as int]);
                assert(usable(replies@[i as int]));
                assert(c@ == caption_of(replies@[i as int]));
            }
            return Some(c);
        }
        proof {
            assert(replies@.skip(i as int)[0] == replies@[i as int]);
            assert(!usable(replies@[i as int]));
            assert(replies@.skip(i as int).drop_first() =~= replies@.skip(i as int + 1));
        }
        i = i + 1;
    }
    proof {
        assert(replies@.skip(n as int) =~= Seq::<ModelReply>::empty());
    }
    None
}

/// Drives one caption resolution incrementally, so that a model is only
/// queried when every model before it has already failed. The caller asks
/// `pending` which model to query next, performs the query, and hands the
/// reply to `absorb`; a `Some` result from `absorb` is the caption.
pub struct Resolver {
    /// The candidate models, in priority order. Fixed at construction.
    pub models: Vec<String>,
    /// How many models have been tried and found unusable.
    pub tried: usize,
}

impl Resolver {
    /// Valid states: never more models tried than exist.
    pub open spec fn wf(self) -> bool {
        self.tried <= self.models@.len()
    }

    pub fn new(models: Vec<String>) -> (r: Resolver)
        ensures
            r.wf(),
            r.models@ == models@,
            r.tried == 0,
    {
        Resolver { models, tried: 0 }
    }

    /// The model to query next: the highest-priority model not yet tried,
    /// or `None` when the list is exhausted.
    pub fn pending(&self) -> (r: Option<String>)
        requires
            self.wf(),
        ensures
            match r {
                Some(m) => self.tried < self.models@.len()
                    && m == self.models@[self.tried as int],
                None => self.tried == self.models@.len(),
            },
    {
        if self.tried < self.models.len() {
            Some(self.models[self.tried].clone())
        } else {
            None
        }
    }

    /// Record the reply of the model last handed out by `pending`. A usable
    /// reply ends resolution with its first text; any other reply moves on
    /// to the next model.
    pub fn absorb(&mut self, reply: &ModelReply) -> (r: Option<String>)
        requires
            old(self).wf(),
            old(self).tried < old(self).models@.len(),
        ensures
            final(self).wf(),
            final(self).models@ == old(self).models@,
            match r {
                Some(c) => usable(*reply) && c@ == caption_of(*reply)
                    && final(self).tried == old(self).tried,
                None => !usable(*reply) && final(self).tried == old(self).tried + 1,
            },
    {
        match reply {
            ModelReply::Texts(v) => {
                if v.len() > 0 {
                    return Some(v[0].clone());
                }
            },
            _ => {},
        }
        let n: usize = self.models.len();
        assert(self.tried < n);
        self.tried = self.tried + 1;
        None
    }
}

/// The statically configured candidate models, in priority order.
pub fn default_models() -> (r: Vec<String>)
    ensures
        r@.len() == 3,
        r@[0]@ == "Salesforce/blip-image-captioning-large"@,
        r@[1]@ == "Salesforce/blip-image-captioning-base"@,
        r@[2]@ == "nlpconnect/vit-gpt2-image-captioning"@,
{
    let mut models: Vec<String> = Vec::new();
    models.push(String::from_str("Salesforce/blip-image-captioning-large"));
    models.push(String::from_str("Salesforce/blip-image-captioning-base"));
    models.push(String::from_str("nlpconnect/vit-gpt2-image-captioning"));
    models
}

/// The inference endpoint queried for a model: the provider's model path
/// followed by the model identifier.
pub fn model_endpoint(model: &String) -> (r: String)
    ensures
        r@ == "https://api-inference.huggingface.co/models/"@ + model@,
{
    let mut url = String::from_str("https://api-inference.huggingface.co/models/");
    url.append(model.as_str());
    url
}

/// The authorization header value for a configured bearer token, or `None`
/// when the token is absent from configuration — in which case no model may
/// be queried and resolution fails at once.
pub fn bearer_header(token: Option<String>) -> (r: Option<String>)
    ensures
        match token {
            Some(t) => r is Some && r->0@ == "Bearer "@ + t@,
            None => r is None,
        },
{
    match token {
        Some(t) => {
            let mut h = String::from_str("Bearer ");
            h.append(t.as_str());
            Some(h)
        },
        None => None,
    }
}

} // verus!
