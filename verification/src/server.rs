//! The server-side request pipeline: authenticate an upload, validate the
//! payload's signature, store the bytes under a fresh key and answer with
//! the public URL; and the retrieval side, serving stored bytes back under
//! their key with a content type derived from the key's extension.

use vstd::prelude::*;
use crate::filetype::{classify, validate_file, FileType};
use crate::keys::{
    check_key, is_stem, is_storage_key, is_storage_key_for, key_format,
    lemma_storage_key_no_traversal, make_storage_key, STEM_LEN,
};
use crate::store::Store;
use vstd::string::StringExecFns;

verus! {

/// The server's resolved configuration: the shared secret uploads must
/// present, and the public base every returned URL starts with. Read once
/// at startup and immutable for the process lifetime.
pub struct ServerConfig {
    pub api_key: String,
    pub public_base: String,
}

/// A classified upload failure. Each variant maps to one HTTP status class
/// and one short reason; underlying causes are never echoed to the caller.
#[derive(Clone, Copy, Debug, PartialEq, Eq, Structural)]
pub enum UploadError {
    /// No credential on the request.
    AuthMissing,
    /// A credential that does not equal the shared secret.
    AuthInvalid,
    /// A payload not recognized as a supported image.
    ValidationFailed,
}

impl UploadError {
    /// The HTTP status class of the failure.
    pub open spec fn spec_status(self) -> u16 {
        match self {
            UploadError::AuthMissing => 400,
            UploadError::AuthInvalid => 401,
            UploadError::ValidationFailed => 412,
        }
    }

    /// The HTTP status code the failure is answered with.
    pub fn status_code(&self) -> (r: u16)
        ensures
            r == self.spec_status(),
    {
        match self {
            UploadError::AuthMissing => 400,
            UploadError::AuthInvalid => 401,
            UploadError::ValidationFailed => 412,
        }
    }

    /// The short human-readable reason of the failure.
    pub open spec fn spec_reason(self) -> Seq<char> {
        match self {
            UploadError::AuthMissing => "`Authorization` header is missing"@,
            UploadError::AuthInvalid => "Invalid API key"@,
            UploadError::ValidationFailed => "Invalid image."@,
        }
    }

    /// The reason string sent to the caller beside the status code.
    pub fn reason(&self) -> (r: String)
        ensures
            r@ == self.spec_reason(),
    {
        match self {
            UploadError::AuthMissing => "`Authorization` header is missing".to_owned(),
            UploadError::AuthInvalid => "Invalid API key".to_owned(),
            UploadError::ValidationFailed => "Invalid image.".to_owned(),
        }
    }
}

/// The view of an optional credential.
pub open spec fn credential_view(credential: Option<&String>) -> Option<Seq<char>> {
    match credential {
        Some(c) => Some(c@),
        None => None,
    }
}

/// Extract the credential from a request's credential field. A request
/// without one is rejected before any comparison; the comparison against
/// the secret is the upload pipeline's own, separate step.
pub fn extract_credential<'a>(credential: Option<&'a String>) -> (r: Result<&'a String, UploadError>)
    ensures
        match r {
            Ok(c) => credential == Some(c),
            Err(e) => credential is None && e == UploadError::AuthMissing,
        },
{
    match credential {
        Some(c) => Ok(c),
        None => Err(UploadError::AuthMissing),
    }
}

/// The decision the upload pipeline takes before anything is stored: reject
/// a missing credential, then a mismatched one, then an unrecognized
/// payload; what is left is accepted with its sniffed format.
pub open spec fn upload_decision(
    secret: Seq<char>,
    credential: Option<Seq<char>>,
    body: Seq<u8>,
) -> Result<FileType, UploadError> {
    match credential {
        None => Err(UploadError::AuthMissing),
        Some(c) => if c != secret {
            Err(UploadError::AuthInvalid)
        } else {
            match classify(body) {
                Some(ft) => Ok(ft),
                None => Err(UploadError::ValidationFailed),
            }
        },
    }
}

/// The storage key a given stem and format combine to.
pub open spec fn storage_key_of(stem: Seq<char>, ft: FileType) -> Seq<char> {
    stem + "."@ + ft.spec_ext()
}

/// The body of a successful upload response: the public URL of the newly
/// stored file.
pub open spec fn public_url_of(base: Seq<char>, key: Seq<char>) -> Seq<char> {
    base + "/"@ + key
}

/// What one upload answers, given the stem the name generator drew.
pub open spec fn upload_response(
    secret: Seq<char>,
    base: Seq<char>,
    credential: Option<Seq<char>>,
    body: Seq<u8>,
    stem: Seq<char>,
) -> Result<Seq<char>, UploadError> {
    match upload_decision(secret, credential, body) {
        Ok(ft) => Ok(public_url_of(base, storage_key_of(stem, ft))),
        Err(e) => Err(e),
    }
}

/// What one upload leaves in the store, given the stem the name generator
/// drew: exactly the received bytes under the new key on success, the store
/// untouched on any failure.
pub open spec fn upload_store_effect(
    m: Map<Seq<char>, Seq<u8>>,
    secret: Seq<char>,
    credential: Option<Seq<char>>,
    body: Seq<u8>,
    stem: Seq<char>,
) -> Map<Seq<char>, Seq<u8>> {
    match upload_decision(secret, credential, body) {
        Ok(ft) => m.insert(storage_key_of(stem, ft), body),
        Err(_) => m,
    }
}

/// The AuthCheck and Validate stages of one upload: everything the pipeline
/// decides before a name is drawn or anything is stored.
pub fn decide_upload(
    config: &ServerConfig,
    credential: Option<&String>,
    body: &Vec<u8>,
) -> (r: Result<FileType, UploadError>)
    ensures
        r == upload_decision(config.api_key@, credential_view(credential), body@),
{
    let key = match extract_credential(credential) {
        Ok(c) => c,
        Err(e) => {
            return Err(e);
        },
    };
    if !(*key == config.api_key) {
        return Err(UploadError::AuthInvalid);
    }
    match validate_file(body) {
        Some(ft) => Ok(ft),
        None => Err(UploadError::ValidationFailed),
    }
}

/// Join a base URL and a storage key into the public URL of a stored file.
pub fn make_public_url(base: &str, key: &str) -> (r: String)
    ensures
        r@ == public_url_of(base@, key@),
{
    let mut url = base.to_owned();
    url.append("/");
    url.append(key);
    url
}

/// One upload, with the drawn stem handed in: authenticate, validate, store
/// under the stem's key, answer the public URL. Every step of the pipeline
/// is decided here; the stem is the one thing drawn elsewhere.
pub fn upload_with_stem(
    config: &ServerConfig,
    credential: Option<&String>,
    body: Vec<u8>,
    stem: &str,
    store: &mut Store,
) -> (r: Result<String, UploadError>)
    requires
        is_stem(stem@),
    ensures
        match r {
            Ok(url) => upload_response(
                config.api_key@,
                config.public_base@,
                credential_view(credential),
                body@,
                stem@,
            ) == Ok::<Seq<char>, UploadError>(url@),
            Err(e) => upload_response(
                config.api_key@,
                config.public_base@,
                credential_view(credential),
                body@,
                stem@,
            ) == Err::<Seq<char>, UploadError>(e),
        },
        final(store)@ == upload_store_effect(
            old(store)@,
            config.api_key@,
            credential_view(credential),
            body@,
            stem@,
        ),
{
    let file_type = match decide_upload(config, credential, &body) {
        Ok(ft) => ft,
        Err(e) => {
            return Err(e);
        },
    };
    let file_name = make_storage_key(stem, &file_type);
    let url = make_public_url(config.public_base.as_str(), file_name.as_str());
    store.put(file_name, body);
    Ok(url)
}

/// One upload as the server runs it: the stem is drawn fresh from the name
/// generator, so the new key is some well-formed key of the accepted
/// format; everything else is as `upload_with_stem` decides. On any failure
/// the store is untouched and the error says which stage refused.
pub fn upload(
    config: &ServerConfig,
    credential: Option<&String>,
    body: Vec<u8>,
    store: &mut Store,
) -> (r: Result<String, UploadError>)
    ensures
        match r {
            Ok(url) => exists|stem: Seq<char>|
                #[trigger] is_stem(stem) && upload_response(
                    config.api_key@,
                    config.public_base@,
                    credential_view(credential),
                    body@,
                    stem,
                ) == Ok::<Seq<char>, UploadError>(url@) && final(store)@ == upload_store_effect(
                    old(store)@,
                    config.api_key@,
                    credential_view(credential),
                    body@,
                    stem,
                ),
            Err(e) => upload_decision(config.api_key@, credential_view(credential), body@)
                == Err::<FileType, UploadError>(e) && final(store)@ == old(store)@,
        },
{
    let stem = crate::keys::random_stem();
    let r = upload_with_stem(config, credential, body, stem.as_str(), store);
    proof {
        if r is Ok {
            assert(is_stem(stem@));
        }
    }
    r
}

/// What retrieval answers on a store and a requested key: the stored bytes
/// and the content type derived from the key's extension, where the key is
/// in the generated shape and holds a payload; nothing otherwise. A key
/// outside the generated shape — too long, a foreign character, a path
/// traversal attempt — is rejected without the store being consulted.
pub open spec fn retrieval_response(m: Map<Seq<char>, Seq<u8>>, key: Seq<char>) -> Option<
    (Seq<char>, Seq<u8>),
> {
    match key_format(key) {
        Some(ft) => if m.contains_key(key) {
            Some(("image/"@ + ft.spec_ext(), m[key]))
        } else {
            None
        },
        None => None,
    }
}

/// The content type a stored file of the format is served with.
pub fn content_type(ft: &FileType) -> (r: String)
    ensures
        r@ == "image/"@ + ft.spec_ext(),
{
    let mut s = "image/".to_owned();
    s.append(ft.ext());
    s
}

/// One retrieval: answer the stored bytes under the requested key with
/// their content type, or nothing where the key is absent or not in the
/// generated shape. Absence is the only failure the store itself can
/// produce; a read fault of the underlying storage is the caller's edge.
pub fn get_file(store: &Store, key: &String) -> (r: Option<(String, Vec<u8>)>)
    ensures
        match r {
            Some(resp) => retrieval_response(store@, key@) == Some((resp.0@, resp.1@)),
            None => retrieval_response(store@, key@) is None,
        },
{
    let ft = match check_key(key.as_str()) {
        Some(ft) => ft,
        None => {
            return None;
        },
    };
    let bytes = match store.get(key) {
        Some(v) => v.clone(),
        None => {
            return None;
        },
    };
    proof {
        assert(bytes@ =~= store@[key@]);
    }
    Some((content_type(&ft), bytes))
}

/// An upload carrying a credential other than the shared secret is
/// unauthorized, whatever its payload holds.
pub proof fn lemma_wrong_credential_unauthorized(
    secret: Seq<char>,
    credential: Seq<char>,
    body: Seq<u8>,
)
    requires
        credential != secret,
    ensures
        upload_decision(secret, Some(credential), body) == Err::<FileType, UploadError>(
            UploadError::AuthInvalid,
        ),
{
}

/// Round trip: a PNG-signed payload uploaded with the correct credential is
/// accepted, stored under the drawn stem's key, and answered with that
/// key's public URL; retrieving the key from the resulting store returns
/// exactly the uploaded bytes under content type `image/png`.
pub proof fn lemma_upload_retrieval_roundtrip(
    m: Map<Seq<char>, Seq<u8>>,
    secret: Seq<char>,
    base: Seq<char>,
    body: Seq<u8>,
    stem: Seq<char>,
)
    requires
        crate::filetype::has_png_signature(body),
        is_stem(stem),
    ensures
        upload_response(secret, base, Some(secret), body, stem) == Ok::<Seq<char>, UploadError>(
            public_url_of(base, storage_key_of(stem, FileType::Png)),
        ),
        retrieval_response(
            upload_store_effect(m, secret, Some(secret), body, stem),
            storage_key_of(stem, FileType::Png),
        ) == Some(("image/png"@, body)),
{
    crate::filetype::lemma_png_signature_suffices(body);
    let k = storage_key_of(stem, FileType::Png);
    reveal_strlit(".");
    reveal_strlit("png");
    reveal_strlit("image/");
    reveal_strlit("image/png");
    assert(k.take(STEM_LEN as int) =~= stem);
    assert(k.skip(STEM_LEN as int + 1) =~= FileType::Png.spec_ext());
    assert(is_storage_key_for(k, FileType::Png));
    let m1 = upload_store_effect(m, secret, Some(secret), body, stem);
    assert(m1 == m.insert(k, body));
    assert(("image/"@ + FileType::Png.spec_ext()) =~= "image/png"@);
}

/// A key that was never stored is answered not-found.
pub proof fn lemma_retrieval_never_stored(m: Map<Seq<char>, Seq<u8>>, key: Seq<char>)
    requires
        !m.contains_key(key),
    ensures
        retrieval_response(m, key) is None,
{
}

/// A requested key holding a path separator or a parent-directory reference
/// is rejected: no such key is in the generated shape, so retrieval answers
/// not-found and nothing outside the storage root is ever served.
pub proof fn lemma_retrieval_traversal_rejected(m: Map<Seq<char>, Seq<u8>>, key: Seq<char>)
    requires
        exists|i: int|
            0 <= i < key.len() && (key[i] == '/' || key[i] == '\\' || (i + 1 < key.len()
                && #[trigger] key[i] == '.' && key[i + 1] == '.')),
    ensures
        retrieval_response(m, key) is None,
{
    if key_format(key) is Some {
        assert(is_storage_key(key)) by {
            if is_storage_key_for(key, FileType::Png) {
                assert(is_storage_key_for(key, FileType::Png));
            } else {
                assert(is_storage_key_for(key, FileType::Jpg));
            }
        }
        lemma_storage_key_no_traversal(key);
        assert(false);
    }
}

} // verus!
