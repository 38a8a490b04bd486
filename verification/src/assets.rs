//! UI asset requests: which asset a request names, where it is read from, and
//! what the caller is answered.

use vstd::prelude::*;
use vstd::string::*;

verus! {

/// The request body of an asset fetch: `{ "path": "..." }`.
pub struct GetReq {
    pub path: String,
}

/// Where an asset is read from.
pub enum AssetSource {
    /// From the directory named by the development override, under `name`.
    Disk { dir: String, name: String },
    /// From the assets bundled into the program, under `name`.
    Embedded { name: String },
}

/// What reading an asset gave.
pub enum AssetOutcome {
    Loaded(Vec<u8>),
    /// Reading from disk failed with this error text.
    ReadFailed(String),
    /// The bundle holds no asset of that name.
    NotBundled,
}

/// The errors an asset fetch answers with.
pub enum AssetError {
    BadRequest(String),
    Internal(String),
}

/// `s` without the `/` characters it starts with.
pub open spec fn strip_leading_slashes(s: Seq<char>) -> Seq<char>
    decreases s.len(),
{
    if s.len() > 0 && s[0] == '/' {
        strip_leading_slashes(s.drop_first())
    } else {
        s
    }
}

/// The asset name a requested path stands for: leading slashes dropped, and
/// `index.html` appended where what is left is empty or names a directory.
pub open spec fn normalised(path: Seq<char>) -> Seq<char> {
    let t = strip_leading_slashes(path);
    if t.len() == 0 || t.last() == '/' {
        t + "index.html"@
    } else {
        t
    }
}

proof fn lemma_strip_step(s: Seq<char>, i: int)
    requires
        0 <= i < s.len(),
        s[i] == '/',
    ensures
        strip_leading_slashes(s.skip(i)) == strip_leading_slashes(s.skip(i + 1)),
{
    assert(s.skip(i).drop_first() =~= s.skip(i + 1));
}

/// What `strip_leading_slashes` leaves does not start with `/`, and is a suffix.
pub proof fn lemma_strip_shape(s: Seq<char>)
    ensures
        strip_leading_slashes(s).len() > 0 ==> strip_leading_slashes(s)[0] != '/',
        strip_leading_slashes(s).len() <= s.len(),
        strip_leading_slashes(s) =~= s.skip(s.len() - strip_leading_slashes(s).len()),
    decreases s.len(),
{
    if s.len() > 0 && s[0] == '/' {
        lemma_strip_shape(s.drop_first());
        let t = strip_leading_slashes(s.drop_first());
        assert(s.drop_first().skip(s.drop_first().len() - t.len()) =~= s.skip(s.len() - t.len()));
    } else {
        assert(s.skip(0) =~= s);
    }
}

/// Maps a requested asset path to the name it is stored under.
pub fn normalise(path: &str) -> (res: String)
    ensures
        res@ == normalised(path@),
{
    let n = path.unicode_len();
    let mut i: usize = 0;
    proof {
        assert(path@.skip(0) =~= path@);
    }
    while i < n && path.get_char(i) == '/'
        invariant
            n == path@.len(),
            i <= n,
            strip_leading_slashes(path@) == strip_leading_slashes(path@.skip(i as int)),
        decreases n - i,
    {
        proof {
            lemma_strip_step(path@, i as int);
        }
        i += 1;
    }
    let trimmed = path.substring_char(i, n);
    proof {
        assert(trimmed@ =~= path@.skip(i as int));
        if i < n {
            assert(trimmed@[0] != '/');
        }
        assert(strip_leading_slashes(trimmed@) == trimmed@);
    }
    let m = n - i;
    if m == 0 || trimmed.get_char(m - 1) == '/' {
        proof {
            reveal_strlit("index.html");
        }
        String::from_str(trimmed).concat("index.html")
    } else {
        String::from_str(trimmed)
    }
}

/// Normalising twice names the same asset as normalising once.
pub proof fn lemma_normalise_idempotent(path: Seq<char>)
    ensures
        normalised(normalised(path)) == normalised(path),
{
    reveal_strlit("index.html");
    let t = strip_leading_slashes(path);
    lemma_strip_shape(path);
    let r = normalised(path);
    assert(r.len() > 0 && r[0] != '/') by {
        if t.len() == 0 {
            assert(r[0] == 'i');
        } else {
            assert(r[0] == t[0]);
        }
    }
    assert(strip_leading_slashes(r) == r);
    assert(r.last() != '/') by {
        if t.len() == 0 || t.last() == '/' {
            assert(r.last() == 'l');
        }
    }
}

/// A normalised name is never empty and neither starts nor ends with `/`.
pub proof fn lemma_normalised_shape(path: Seq<char>)
    ensures
        normalised(path).len() > 0,
        normalised(path)[0] != '/',
        normalised(path).last() != '/',
{
    reveal_strlit("index.html");
    let t = strip_leading_slashes(path);
    lemma_strip_shape(path);
    let r = normalised(path);
    if t.len() == 0 {
        assert(r[0] == 'i');
    } else {
        assert(r[0] == t[0]);
    }
    if t.len() == 0 || t.last() == '/' {
        assert(r.last() == 'l');
    }
}

/// A leading slash does not change which asset a path names.
pub proof fn lemma_leading_slash_ignored(path: Seq<char>)
    ensures
        normalised(seq!['/'] + path) == normalised(path),
{
    assert((seq!['/'] + path).drop_first() =~= path);
}

/// The error for a request body that did not parse.
pub open spec fn bad_body_message(detail: Seq<char>) -> Seq<char> {
    "assets.get: "@ + detail
}

/// Decides where the asset a request names is read from: the body must have
/// parsed; with a development directory configured the asset is read from
/// disk there, otherwise from the bundle.
pub fn handle(request: Result<GetReq, String>, dev_dir: Option<String>) -> (res: Result<AssetSource, AssetError>)
    ensures
        request is Err ==> (res matches Err(AssetError::BadRequest(m)) && m@ == bad_body_message(request->Err_0@)),
        request is Ok ==> match dev_dir {
            Some(d) => (res matches Ok(AssetSource::Disk { dir, name }) && dir@ == d@ && name@ == normalised(request->Ok_0.path@)),
            None => (res matches Ok(AssetSource::Embedded { name }) && name@ == normalised(request->Ok_0.path@)),
        },
{
    match request {
        Err(e) => {
            proof {
                reveal_strlit("assets.get: ");
            }
            Err(AssetError::BadRequest(String::from_str("assets.get: ").concat(e.as_str())))
        },
        Ok(req) => {
            let name = normalise(req.path.as_str());
            match dev_dir {
                Some(dir) => Ok(AssetSource::Disk { dir, name }),
                None => Ok(AssetSource::Embedded { name }),
            }
        },
    }
}

/// Whether an outcome is one that reading from `source` can give.
pub open spec fn outcome_fits(source: AssetSource, outcome: AssetOutcome) -> bool {
    match source {
        AssetSource::Disk { .. } => !(outcome is NotBundled),
        AssetSource::Embedded { .. } => !(outcome is ReadFailed),
    }
}

/// The name an asset source reads.
pub open spec fn source_name(source: AssetSource) -> Seq<char> {
    match source {
        AssetSource::Disk { name, .. } => name@,
        AssetSource::Embedded { name } => name@,
    }
}

/// The answer to an asset fetch once the asset has been looked for: its
/// bytes, or an internal error naming the asset.
pub fn deliver(source: &AssetSource, outcome: AssetOutcome) -> (res: Result<Vec<u8>, AssetError>)
    requires
        outcome_fits(*source, outcome),
    ensures
        match outcome {
            AssetOutcome::Loaded(bytes) => res == Ok::<Vec<u8>, AssetError>(bytes),
            AssetOutcome::ReadFailed(e) => (res matches Err(AssetError::Internal(m))
                && m@ == "asset "@ + source_name(*source) + ": "@ + e@),
            AssetOutcome::NotBundled => (res matches Err(AssetError::Internal(m))
                && m@ == "embedded asset not found: "@ + source_name(*source)),
        },
{
    let name = match source {
        AssetSource::Disk { name, .. } => name,
        AssetSource::Embedded { name } => name,
    };
    match outcome {
        AssetOutcome::Loaded(bytes) => Ok(bytes),
        AssetOutcome::ReadFailed(e) => {
            proof {
                reveal_strlit("asset ");
                reveal_strlit(": ");
            }
            let m = String::from_str("asset ").concat(name.as_str()).concat(": ").concat(e.as_str());
            Err(AssetError::Internal(m))
        },
        AssetOutcome::NotBundled => {
            proof {
                reveal_strlit("embedded asset not found: ");
            }
            Err(AssetError::Internal(String::from_str("embedded asset not found: ").concat(name.as_str())))
        },
    }
}

} // verus!
