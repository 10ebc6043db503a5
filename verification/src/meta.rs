use vstd::prelude::*;
use vstd::string::{StrSliceExecFns, StringExecFns};

verus! {

/// Descriptive record for a stored file.  Read-mostly context owned by an
/// external catalog service; the engine never mutates it.  The identifier and
/// the timestamp are carried as plain values (a canonical id string, and
/// milliseconds since the Unix epoch).
pub struct FileMetaData {
    pub id: String,
    pub file_name: String,
    pub catalog: String,
    pub size: u64,
    pub mime_type: String,
    pub updated_at: i64,
    pub tags: Vec<String>,
}

/// Identifies what is being downloaded: an opaque file id, the provider type
/// name, the provider instance index, and the provider-specific object key.
/// Immutable once constructed; doubles as the cache-fingerprint input.
pub struct FileDownloadSource {
    pub file_id: String,
    pub provider_type: String,
    pub provider_index: String,
    pub object_key: String,
}

/// The version-5 UUID (hyphenated, lower-case hex) of a name string under the
/// OID namespace.  A pure function of the name's characters alone; its value
/// is given only by the trusted wrapper below.
pub uninterp spec fn uuid_v5_of(name: Seq<char>) -> Seq<char>;

/// Relies on `uuid::Uuid::new_v5`: a version-5 UUID is computed
/// deterministically from the namespace and the name bytes alone, and its
/// hyphenated rendering is 36 characters.
#[verifier::external_body]
fn uuid_v5_hex(name: &str) -> (r: String)
    ensures
        r@ == uuid_v5_of(name@),
        r@.len() == 36,
{
    uuid::Uuid::new_v5(&uuid::Uuid::NAMESPACE_OID, name.as_bytes()).hyphenated().to_string()
}

/// Relies on `String::push`: appends the given character to the end of the
/// string.
pub assume_specification[ String::push ](s: &mut String, c: char)
    ensures
        final(s)@ == old(s)@.push(c),
;

/// The two characters that structure the serialization and must therefore be
/// escaped inside a field value.
pub open spec fn needs_escape(c: char) -> bool {
    c == '"' || c == '\\'
}

/// A field character as it appears in the serialization: structural
/// characters get a backslash in front, every other character stands as is.
pub open spec fn escape_char(c: char) -> Seq<char> {
    if needs_escape(c) {
        seq!['\\', c]
    } else {
        seq![c]
    }
}

/// A field value as it appears in the serialization.
pub open spec fn escape_str(s: Seq<char>) -> Seq<char>
    decreases s.len(),
{
    if s.len() == 0 {
        Seq::empty()
    } else {
        escape_char(s[0]) + escape_str(s.drop_first())
    }
}

/// The canonical serialization of a download source: a JSON object with the
/// four fields in fixed order, field values escaped (`"` and `\` get a
/// backslash in front), so the serialization is injective on the fields.
pub open spec fn canonical_of(
    file_id: Seq<char>,
    provider_type: Seq<char>,
    provider_index: Seq<char>,
    object_key: Seq<char>,
) -> Seq<char> {
    "{\"file_id\":\""@ + escape_str(file_id) + "\",\"provider_type\":\""@ + escape_str(
        provider_type,
    ) + "\",\"provider_index\":\""@ + escape_str(provider_index) + "\",\"object_key\":\""@
        + escape_str(object_key) + "\"}"@
}

/// Extending the escaped prefix by one character appends that character's
/// escape.
proof fn lemma_escape_str_take_step(s: Seq<char>, i: int)
    requires
        0 <= i < s.len(),
    ensures
        escape_str(s.take(i + 1)) == escape_str(s.take(i)) + escape_char(s[i]),
    decreases i,
{
    if i == 0 {
        assert(s.take(0) =~= Seq::<char>::empty());
        assert(s.take(1).drop_first() =~= Seq::<char>::empty());
        assert(escape_str(s.take(1)) =~= escape_char(s[0]));
        assert(escape_str(s.take(1)) =~= escape_str(s.take(0)) + escape_char(s[0]));
    } else {
        let d = s.drop_first();
        lemma_escape_str_take_step(d, i - 1);
        assert(s.take(i + 1).drop_first() =~= d.take(i));
        assert(s.take(i).drop_first() =~= d.take(i - 1));
        assert(escape_str(s.take(i + 1)) == escape_char(s[0]) + escape_str(d.take(i)));
        assert(escape_str(s.take(i)) == escape_char(s[0]) + escape_str(d.take(i - 1)));
        assert(escape_str(s.take(i + 1)) =~= escape_str(s.take(i)) + escape_char(s[i]));
    }
}

/// Builds the escaped form of one field value.
fn escape_string(s: &str) -> (r: String)
    ensures
        r@ == escape_str(s@),
{
    let n = s.unicode_len();
    let mut out = String::new();
    let mut i: usize = 0;
    proof {
        assert(s@.take(0) =~= Seq::<char>::empty());
    }
    while i < n
        invariant
            n == s@.len(),
            i <= n,
            out@ == escape_str(s@.take(i as int)),
        decreases n - i,
    {
        let c = s.get_char(i);
        if c == '"' {
            out.append("\\\"");
            proof {
                reveal_strlit("\\\"");
                assert(out@ =~= escape_str(s@.take(i as int)) + escape_char(s@[i as int]));
            }
        } else if c == '\\' {
            out.append("\\\\");
            proof {
                reveal_strlit("\\\\");
                assert(out@ =~= escape_str(s@.take(i as int)) + escape_char(s@[i as int]));
            }
        } else {
            out.push(c);
            proof {
                assert(out@ =~= escape_str(s@.take(i as int)) + escape_char(s@[i as int]));
            }
        }
        proof {
            lemma_escape_str_take_step(s@, i as int);
        }
        i += 1;
    }
    proof {
        assert(s@.take(n as int) =~= s@);
    }
    out
}

impl FileDownloadSource {
    /// The canonical serialization of this source.
    pub open spec fn canonical(&self) -> Seq<char> {
        canonical_of(self.file_id@, self.provider_type@, self.provider_index@, self.object_key@)
    }

    /// The cache fingerprint: the version-5 UUID of the canonical
    /// serialization.  Stable across calls and process restarts.
    pub open spec fn fingerprint(&self) -> Seq<char> {
        uuid_v5_of(self.canonical())
    }

    /// Builds the canonical serialization as an executable string.
    pub fn canonical_string(&self) -> (r: String)
        ensures
            r@ == self.canonical(),
    {
        let mut s = String::new();
        s.append("{\"file_id\":\"");
        let f = escape_string(self.file_id.as_str());
        s.append(f.as_str());
        s.append("\",\"provider_type\":\"");
        let p = escape_string(self.provider_type.as_str());
        s.append(p.as_str());
        s.append("\",\"provider_index\":\"");
        let ix = escape_string(self.provider_index.as_str());
        s.append(ix.as_str());
        s.append("\",\"object_key\":\"");
        let o = escape_string(self.object_key.as_str());
        s.append(o.as_str());
        s.append("\"}");
        proof {
            assert(s@ =~= self.canonical());
        }
        s
    }

    /// Returns the deterministic cache fingerprint of this source.
    pub fn get_cache_uuid(&self) -> (r: String)
        ensures
            r@ == self.fingerprint(),
            r@.len() == 36,
    {
        let c = self.canonical_string();
        uuid_v5_hex(c.as_str())
    }
}

/// Fingerprint determinism: two sources whose fields agree have the same
/// fingerprint, on every call and across process restarts.
pub proof fn lemma_fingerprint_deterministic(a: FileDownloadSource, b: FileDownloadSource)
    requires
        a.file_id@ == b.file_id@,
        a.provider_type@ == b.provider_type@,
        a.provider_index@ == b.provider_index@,
        a.object_key@ == b.object_key@,
    ensures
        a.fingerprint() == b.fingerprint(),
{
}

/// Two escaped fields each followed by a quote: equal wholes force equal
/// fields and equal tails.  An escaped field never exposes a bare quote, so
/// the first quote after it is the delimiter and the decomposition is
/// unambiguous for every field value.
proof fn lemma_escaped_field_cancel(a: Seq<char>, y1: Seq<char>, b: Seq<char>, y2: Seq<char>)
    requires
        y1.len() > 0,
        y1[0] == '"',
        y2.len() > 0,
        y2[0] == '"',
        escape_str(a) + y1 == escape_str(b) + y2,
    ensures
        a == b,
        y1 == y2,
    decreases a.len() + b.len(),
{
    let s = escape_str(a) + y1;
    if a.len() == 0 && b.len() == 0 {
        assert(escape_str(a) =~= Seq::<char>::empty());
        assert(escape_str(b) =~= Seq::<char>::empty());
        assert(y1 =~= y2);
        assert(a =~= b);
    } else if a.len() == 0 {
        assert(escape_str(a) =~= Seq::<char>::empty());
        assert(s[0] == y1[0]);
        assert(escape_str(b) == escape_char(b[0]) + escape_str(b.drop_first()));
        if needs_escape(b[0]) {
            assert(escape_str(b)[0] == '\\');
        } else {
            assert(escape_str(b)[0] == b[0]);
        }
        assert((escape_str(b) + y2)[0] == escape_str(b)[0]);
        assert(false);
    } else if b.len() == 0 {
        assert(escape_str(b) =~= Seq::<char>::empty());
        assert((escape_str(b) + y2)[0] == y2[0]);
        assert(escape_str(a) == escape_char(a[0]) + escape_str(a.drop_first()));
        if needs_escape(a[0]) {
            assert(escape_str(a)[0] == '\\');
        } else {
            assert(escape_str(a)[0] == a[0]);
        }
        assert(s[0] == escape_str(a)[0]);
        assert(false);
    } else {
        let da = a.drop_first();
        let db = b.drop_first();
        assert(escape_str(a) == escape_char(a[0]) + escape_str(da));
        assert(escape_str(b) == escape_char(b[0]) + escape_str(db));
        if needs_escape(a[0]) && needs_escape(b[0]) {
            assert(escape_str(a)[0] == '\\' && escape_str(a)[1] == a[0]);
            assert(escape_str(b)[0] == '\\' && escape_str(b)[1] == b[0]);
            assert(s[1] == a[0]);
            assert((escape_str(b) + y2)[1] == b[0]);
            assert(a[0] == b[0]);
            assert(escape_str(da) + y1 =~= s.skip(2));
            assert(escape_str(db) + y2 =~= (escape_str(b) + y2).skip(2));
            lemma_escaped_field_cancel(da, y1, db, y2);
            assert forall|j: int| 0 <= j < a.len() implies a[j] == b[j] by {
                if j > 0 {
                    assert(a[j] == da[j - 1]);
                    assert(b[j] == db[j - 1]);
                }
            }
            assert(a =~= b);
        } else if needs_escape(a[0]) {
            assert(escape_str(a)[0] == '\\');
            assert(escape_str(b)[0] == b[0]);
            assert(s[0] == escape_str(a)[0]);
            assert((escape_str(b) + y2)[0] == escape_str(b)[0]);
            assert(false);
        } else if needs_escape(b[0]) {
            assert(escape_str(b)[0] == '\\');
            assert(escape_str(a)[0] == a[0]);
            assert(s[0] == escape_str(a)[0]);
            assert((escape_str(b) + y2)[0] == escape_str(b)[0]);
            assert(false);
        } else {
            assert(escape_str(a)[0] == a[0]);
            assert(escape_str(b)[0] == b[0]);
            assert(s[0] == a[0]);
            assert((escape_str(b) + y2)[0] == b[0]);
            assert(a[0] == b[0]);
            assert(escape_str(da) + y1 =~= s.skip(1));
            assert(escape_str(db) + y2 =~= (escape_str(b) + y2).skip(1));
            lemma_escaped_field_cancel(da, y1, db, y2);
            assert forall|j: int| 0 <= j < a.len() implies a[j] == b[j] by {
                if j > 0 {
                    assert(a[j] == da[j - 1]);
                    assert(b[j] == db[j - 1]);
                }
            }
            assert(a =~= b);
        }
    }
}

/// The canonical serialization is injective: two sources with equal
/// serializations agree in every field, for all field values.
/// Contrapositively, sources differing in any field have different
/// serializations, hence different fingerprint inputs.
pub proof fn lemma_canonical_injective(a: FileDownloadSource, b: FileDownloadSource)
    requires
        a.canonical() == b.canonical(),
    ensures
        a.file_id@ == b.file_id@,
        a.provider_type@ == b.provider_type@,
        a.provider_index@ == b.provider_index@,
        a.object_key@ == b.object_key@,
{
    let pre = "{\"file_id\":\""@;
    let sep_pt = "\",\"provider_type\":\""@;
    let sep_pi = "\",\"provider_index\":\""@;
    let sep_ok = "\",\"object_key\":\""@;
    let end = "\"}"@;
    reveal_strlit("{\"file_id\":\"");
    reveal_strlit("\",\"provider_type\":\"");
    reveal_strlit("\",\"provider_index\":\"");
    reveal_strlit("\",\"object_key\":\"");
    reveal_strlit("\"}");
    let ta = sep_pt + escape_str(a.provider_type@) + (sep_pi + escape_str(a.provider_index@) + (
    sep_ok + escape_str(a.object_key@) + end));
    let tb = sep_pt + escape_str(b.provider_type@) + (sep_pi + escape_str(b.provider_index@) + (
    sep_ok + escape_str(b.object_key@) + end));
    assert(a.canonical() =~= pre + (escape_str(a.file_id@) + ta));
    assert(b.canonical() =~= pre + (escape_str(b.file_id@) + tb));
    assert(escape_str(a.file_id@) + ta =~= a.canonical().skip(pre.len() as int));
    assert(escape_str(b.file_id@) + tb =~= b.canonical().skip(pre.len() as int));
    lemma_escaped_field_cancel(a.file_id@, ta, b.file_id@, tb);
    let ua = sep_pi + escape_str(a.provider_index@) + (sep_ok + escape_str(a.object_key@) + end);
    let ub = sep_pi + escape_str(b.provider_index@) + (sep_ok + escape_str(b.object_key@) + end);
    assert(ta =~= sep_pt + (escape_str(a.provider_type@) + ua));
    assert(tb =~= sep_pt + (escape_str(b.provider_type@) + ub));
    assert(escape_str(a.provider_type@) + ua =~= ta.skip(sep_pt.len() as int));
    assert(escape_str(b.provider_type@) + ub =~= tb.skip(sep_pt.len() as int));
    lemma_escaped_field_cancel(a.provider_type@, ua, b.provider_type@, ub);
    let va = sep_ok + escape_str(a.object_key@) + end;
    let vb = sep_ok + escape_str(b.object_key@) + end;
    assert(ua =~= sep_pi + (escape_str(a.provider_index@) + va));
    assert(ub =~= sep_pi + (escape_str(b.provider_index@) + vb));
    assert(escape_str(a.provider_index@) + va =~= ua.skip(sep_pi.len() as int));
    assert(escape_str(b.provider_index@) + vb =~= ub.skip(sep_pi.len() as int));
    lemma_escaped_field_cancel(a.provider_index@, va, b.provider_index@, vb);
    assert(va =~= sep_ok + (escape_str(a.object_key@) + end));
    assert(vb =~= sep_ok + (escape_str(b.object_key@) + end));
    assert(escape_str(a.object_key@) + end =~= va.skip(sep_ok.len() as int));
    assert(escape_str(b.object_key@) + end =~= vb.skip(sep_ok.len() as int));
    lemma_escaped_field_cancel(a.object_key@, end, b.object_key@, end);
}

} // verus!
