//! The download request record and the request body built from it.

use vstd::prelude::*;

verus! {

/// How the download is made: the service picks formats itself (`Auto`)
/// or is asked for an audio-only extraction (`AudioOnly`).
#[derive(Clone, Copy, Debug, PartialEq, Eq, Structural)]
pub enum Mode {
    Auto,
    AudioOnly,
}

/// One download intent: the target URL, the mode, the format tokens,
/// and four independent boolean options. Any combination of fields is
/// structurally valid; semantic validity is judged by the remote service.
pub struct DownloadRequest {
    pub url: String,
    pub mode: Mode,
    pub vquality: String,
    pub vcodec: String,
    pub aformat: String,
    pub ttwatermark: bool,
    pub fullaudio: bool,
    pub mute: bool,
    pub dublang: bool,
}

/// The flat string-to-string mapping sent to the resolver, kept as an
/// ordered list of key/value pairs. Key absence, not a `"false"` value,
/// is the negative signal for every optional key, so the mapping is
/// built sparsely and never rewritten.
pub struct RequestBody {
    pairs: Vec<(String, String)>,
}

impl View for RequestBody {
    type V = Seq<(Seq<char>, Seq<char>)>;

    closed spec fn view(&self) -> Seq<(Seq<char>, Seq<char>)> {
        self.pairs@.map_values(|p: (String, String)| (p.0@, p.1@))
    }
}

/// The value bound to `key` in `pairs`, where a later pair with the same
/// key wins, or `None` when the key is absent.
pub open spec fn lookup(pairs: Seq<(Seq<char>, Seq<char>)>, key: Seq<char>) -> Option<Seq<char>>
    decreases pairs.len(),
{
    if pairs.len() == 0 {
        None
    } else if pairs.last().0 == key {
        Some(pairs.last().1)
    } else {
        lookup(pairs.drop_last(), key)
    }
}

/// Appending one pair binds exactly its own key and leaves every other
/// key's binding unchanged.
pub proof fn lemma_lookup_push(s: Seq<(Seq<char>, Seq<char>)>, k: Seq<char>, v: Seq<char>)
    ensures
        forall|key: Seq<char>| #[trigger] lookup(s.push((k, v)), key) == (if key == k {
            Some(v)
        } else {
            lookup(s, key)
        }),
{
    assert(s.push((k, v)).drop_last() =~= s);
}

/// Shortening the list by one drops exactly the binding that its last
/// pair made.
pub proof fn lemma_lookup_take(s: Seq<(Seq<char>, Seq<char>)>, j: int)
    requires
        0 <= j < s.len(),
    ensures
        forall|key: Seq<char>| #[trigger] lookup(s.take(j + 1), key) == (if s[j].0 == key {
            Some(s[j].1)
        } else {
            lookup(s.take(j), key)
        }),
{
    assert(s.take(j + 1).drop_last() =~= s.take(j));
    assert(s.take(j + 1).last() == s[j]);
}

impl RequestBody {
    /// How many key/value pairs the body carries.
    pub fn len(&self) -> (n: usize)
        ensures
            n == self@.len(),
    {
        self.pairs.len()
    }

    /// The key of the pair at position `i`.
    pub fn key_at(&self, i: usize) -> (k: &str)
        requires
            i < self@.len(),
        ensures
            k@ == self@[i as int].0,
    {
        self.pairs[i].0.as_str()
    }

    /// The value of the pair at position `i`.
    pub fn value_at(&self, i: usize) -> (v: &str)
        requires
            i < self@.len(),
        ensures
            v@ == self@[i as int].1,
    {
        self.pairs[i].1.as_str()
    }

    /// The value bound to `key`, the latest binding winning, or `None`
    /// when the body does not carry the key.
    pub fn get<'a>(&'a self, key: &str) -> (r: Option<&'a String>)
        ensures
            match r {
                Some(v) => lookup(self@, key@) == Some(v@),
                None => lookup(self@, key@) is None,
            },
    {
        let mut i: usize = self.pairs.len();
        proof {
            assert(self@.take(self@.len() as int) =~= self@);
        }
        while i > 0
            invariant
                i <= self@.len(),
                self@.len() == self.pairs@.len(),
                lookup(self@, key@) == lookup(self@.take(i as int), key@),
            decreases i,
        {
            i = i - 1;
            let hit = crate::strutil::str_eq(self.pairs[i].0.as_str(), key);
            proof {
                lemma_lookup_take(self@, i as int);
            }
            if hit {
                return Some(&self.pairs[i].1);
            }
        }
        proof {
            assert(self@.take(0) =~= Seq::<(Seq<char>, Seq<char>)>::empty());
        }
        None
    }
}

/// The request body that a DownloadRequest denotes: the four base keys
/// always, `isAudioOnly` only in audio-only mode, and one key per boolean
/// option only when the option is set.
pub open spec fn spec_body_pairs(req: DownloadRequest) -> Seq<(Seq<char>, Seq<char>)> {
    let s = Seq::<(Seq<char>, Seq<char>)>::empty().push(("url"@, req.url@)).push(
        ("vCodec"@, req.vcodec@),
    ).push(("vQuality"@, req.vquality@)).push(("aFormat"@, req.aformat@));
    let s = if req.mode is AudioOnly {
        s.push(("isAudioOnly"@, "true"@))
    } else {
        s
    };
    let s = if req.ttwatermark {
        s.push(("isNoTTWatermark"@, "true"@))
    } else {
        s
    };
    let s = if req.fullaudio {
        s.push(("isTTFullAudio"@, "true"@))
    } else {
        s
    };
    let s = if req.mute {
        s.push(("isAudioMuted"@, "true"@))
    } else {
        s
    };
    if req.dublang {
        s.push(("dubLang"@, "true"@))
    } else {
        s
    }
}

/// The keys that a request body can ever carry.
pub open spec fn is_body_key(key: Seq<char>) -> bool {
    ||| key == "url"@
    ||| key == "vCodec"@
    ||| key == "vQuality"@
    ||| key == "aFormat"@
    ||| key == "isAudioOnly"@
    ||| key == "isNoTTWatermark"@
    ||| key == "isTTFullAudio"@
    ||| key == "isAudioMuted"@
    ||| key == "dubLang"@
}

/// For every request: the four base keys are bound to the request's own
/// field values; `isAudioOnly` is bound to `"true"` exactly when the mode
/// is `AudioOnly`; each boolean option's key is bound to `"true"` exactly
/// when that option is set (so toggling an option toggles the key's
/// presence, never its value); and no key outside the nine is ever bound.
pub proof fn lemma_body_keys(req: DownloadRequest)
    ensures
        lookup(spec_body_pairs(req), "url"@) == Some(req.url@),
        lookup(spec_body_pairs(req), "vCodec"@) == Some(req.vcodec@),
        lookup(spec_body_pairs(req), "vQuality"@) == Some(req.vquality@),
        lookup(spec_body_pairs(req), "aFormat"@) == Some(req.aformat@),
        lookup(spec_body_pairs(req), "isAudioOnly"@) == (if req.mode is AudioOnly {
            Some("true"@)
        } else {
            None::<Seq<char>>
        }),
        lookup(spec_body_pairs(req), "isNoTTWatermark"@) == (if req.ttwatermark {
            Some("true"@)
        } else {
            None::<Seq<char>>
        }),
        lookup(spec_body_pairs(req), "isTTFullAudio"@) == (if req.fullaudio {
            Some("true"@)
        } else {
            None::<Seq<char>>
        }),
        lookup(spec_body_pairs(req), "isAudioMuted"@) == (if req.mute {
            Some("true"@)
        } else {
            None::<Seq<char>>
        }),
        lookup(spec_body_pairs(req), "dubLang"@) == (if req.dublang {
            Some("true"@)
        } else {
            None::<Seq<char>>
        }),
        forall|key: Seq<char>| lookup(spec_body_pairs(req), key) is Some ==> is_body_key(key),
{
    reveal_strlit("url");
    reveal_strlit("vCodec");
    reveal_strlit("vQuality");
    reveal_strlit("aFormat");
    reveal_strlit("isAudioOnly");
    reveal_strlit("isNoTTWatermark");
    reveal_strlit("isTTFullAudio");
    reveal_strlit("isAudioMuted");
    reveal_strlit("dubLang");
    reveal_strlit("true");
    // The nine keys are pairwise distinct: all lengths differ except for
    // the two of length seven, which differ in their first character.
    assert(("url"@).len() == 3);
    assert(("vCodec"@).len() == 6);
    assert(("vQuality"@).len() == 8);
    assert(("aFormat"@).len() == 7);
    assert(("isAudioOnly"@).len() == 11);
    assert(("isNoTTWatermark"@).len() == 15);
    assert(("isTTFullAudio"@).len() == 13);
    assert(("isAudioMuted"@).len() == 12);
    assert(("dubLang"@).len() == 7);
    assert(("aFormat"@)[0] == 'a');
    assert(("dubLang"@)[0] == 'd');
    let s0 = Seq::<(Seq<char>, Seq<char>)>::empty();
    let s1 = s0.push(("url"@, req.url@));
    let s2 = s1.push(("vCodec"@, req.vcodec@));
    let s3 = s2.push(("vQuality"@, req.vquality@));
    let s4 = s3.push(("aFormat"@, req.aformat@));
    let s5 = if req.mode is AudioOnly {
        s4.push(("isAudioOnly"@, "true"@))
    } else {
        s4
    };
    let s6 = if req.ttwatermark {
        s5.push(("isNoTTWatermark"@, "true"@))
    } else {
        s5
    };
    let s7 = if req.fullaudio {
        s6.push(("isTTFullAudio"@, "true"@))
    } else {
        s6
    };
    let s8 = if req.mute {
        s7.push(("isAudioMuted"@, "true"@))
    } else {
        s7
    };
    let s9 = if req.dublang {
        s8.push(("dubLang"@, "true"@))
    } else {
        s8
    };
    lemma_lookup_push(s0, "url"@, req.url@);
    lemma_lookup_push(s1, "vCodec"@, req.vcodec@);
    lemma_lookup_push(s2, "vQuality"@, req.vquality@);
    lemma_lookup_push(s3, "aFormat"@, req.aformat@);
    lemma_lookup_push(s4, "isAudioOnly"@, "true"@);
    lemma_lookup_push(s5, "isNoTTWatermark"@, "true"@);
    lemma_lookup_push(s6, "isTTFullAudio"@, "true"@);
    lemma_lookup_push(s7, "isAudioMuted"@, "true"@);
    lemma_lookup_push(s8, "dubLang"@, "true"@);
    assert(forall|key: Seq<char>| lookup(s0, key) is None);
    assert(forall|key: Seq<char>| #[trigger] lookup(s4, key) == (if key == "aFormat"@ {
        Some(req.aformat@)
    } else if key == "vQuality"@ {
        Some(req.vquality@)
    } else if key == "vCodec"@ {
        Some(req.vcodec@)
    } else if key == "url"@ {
        Some(req.url@)
    } else {
        None::<Seq<char>>
    }));
    assert(forall|key: Seq<char>| #[trigger] lookup(s5, key) == (
    if req.mode is AudioOnly && key == "isAudioOnly"@ {
        Some("true"@)
    } else {
        lookup(s4, key)
    }));
    assert(forall|key: Seq<char>| #[trigger] lookup(s6, key) == (if req.ttwatermark && key
        == "isNoTTWatermark"@ {
        Some("true"@)
    } else {
        lookup(s5, key)
    }));
    assert(forall|key: Seq<char>| #[trigger] lookup(s7, key) == (if req.fullaudio && key
        == "isTTFullAudio"@ {
        Some("true"@)
    } else {
        lookup(s6, key)
    }));
    assert(forall|key: Seq<char>| #[trigger] lookup(s8, key) == (if req.mute && key
        == "isAudioMuted"@ {
        Some("true"@)
    } else {
        lookup(s7, key)
    }));
    assert(forall|key: Seq<char>| #[trigger] lookup(s9, key) == (if req.dublang && key
        == "dubLang"@ {
        Some("true"@)
    } else {
        lookup(s8, key)
    }));
    assert(spec_body_pairs(req) == s9);
}

/// The JSON text that serializing a string-to-string mapping yields.
pub uninterp spec fn json_object_text(pairs: Seq<(Seq<char>, Seq<char>)>) -> Seq<char>;

/// Relies on serde_json::to_string: serializing a map whose keys and
/// values are strings cannot fail, and the text it yields depends on the
/// map's entries alone (a BTreeMap iterates its entries in key order).
#[verifier::external_body]
fn to_json_text(pairs: &Vec<(String, String)>) -> (r: String)
    ensures
        r@ == json_object_text(pairs@.map_values(|p: (String, String)| (p.0@, p.1@))),
{
    let map: std::collections::BTreeMap<String, String> = pairs.iter().cloned().collect();
    serde_json::to_string(&map).unwrap_or_default()
}

impl RequestBody {
    /// The body serialized as the JSON object text that is POSTed to the
    /// resolver.
    pub fn to_json(&self) -> (r: String)
        ensures
            r@ == json_object_text(self@),
    {
        to_json_text(&self.pairs)
    }
}

/// The resolver endpoint URL for a host: `https://<host>/api/json`.
pub open spec fn spec_endpoint(host: Seq<char>) -> Seq<char> {
    "https://"@ + host + "/api/json"@
}

/// Builds the resolver endpoint URL for a host.
pub fn resolver_endpoint(host: &str) -> (r: String)
    ensures
        r@ == spec_endpoint(host@),
{
    let mut s = "https://".to_owned();
    s.append(host);
    s.append("/api/json");
    s
}

/// Derives the wire mapping from a request, sparsely: the four base keys
/// always, the optional keys only when their flag or mode asks for them.
pub fn build_request_body(req: &DownloadRequest) -> (body: RequestBody)
    ensures
        body@ == spec_body_pairs(*req),
{
    let mut pairs: Vec<(String, String)> = Vec::new();
    pairs.push(("url".to_owned(), req.url.clone()));
    pairs.push(("vCodec".to_owned(), req.vcodec.clone()));
    pairs.push(("vQuality".to_owned(), req.vquality.clone()));
    pairs.push(("aFormat".to_owned(), req.aformat.clone()));
    if req.mode == Mode::AudioOnly {
        pairs.push(("isAudioOnly".to_owned(), "true".to_owned()));
    }
    if req.ttwatermark {
        pairs.push(("isNoTTWatermark".to_owned(), "true".to_owned()));
    }
    if req.fullaudio {
        pairs.push(("isTTFullAudio".to_owned(), "true".to_owned()));
    }
    if req.mute {
        pairs.push(("isAudioMuted".to_owned(), "true".to_owned()));
    }
    if req.dublang {
        pairs.push(("dubLang".to_owned(), "true".to_owned()));
    }
    let body = RequestBody { pairs };
    proof {
        assert(body@ =~= spec_body_pairs(*req));
    }
    body
}

} // verus!
