//! Chrome's stored cookies: where the profile keeps them, how their values
//! are decrypted, and which host a cookie lookup is for.
use vstd::prelude::*;
use crate::error::HtmlError;
use crate::text::{chars_of, has_prefix, has_suffix, seq_ends_with, seq_starts_with, vec_range};
use vstd::utf8::{decode_utf8, valid_utf8};
use cipher::{BlockDecryptMut, KeyIvInit};

verus! {

/// What the url crate makes of an address: `None` when it does not parse,
/// otherwise the parsed URL's host, if it has one.
pub uninterp spec fn url_parse_host(url: Seq<char>) -> Option<Option<Seq<char>>>;

/// `url::Url::parse` followed by `host_str`: the claim is that the result is
/// `url_parse_host(url)`, a function of the address alone.
#[verifier::external_body]
fn parse_url_host(url: &str) -> (r: Option<Option<String>>)
    ensures
        r is Some == url_parse_host(url@) is Some,
        r matches Some(h) ==> (h is Some == url_parse_host(url@)->Some_0 is Some),
        r matches Some(Some(h)) ==> url_parse_host(url@) == Some(Some(h@)),
{
    url::Url::parse(url).ok().map(|u| u.host_str().map(|h| h.to_string()))
}

/// The host whose cookies a page at `url` needs.
pub fn cookie_host(url: &str) -> (r: Result<String, HtmlError>)
    ensures
        url_parse_host(url@) is None ==> (r matches Err(HtmlError::InvalidUrl(m)) && m@ == "Invalid URL: "@
            + url@),
        url_parse_host(url@) == Some(None::<Seq<char>>) ==> (r matches Err(HtmlError::InvalidUrl(m))
            && m@ == "URL has no host"@),
        r matches Ok(h) ==> url_parse_host(url@) == Some(Some(h@)),
        r is Ok <==> (url_parse_host(url@) matches Some(Some(_))),
{
    match parse_url_host(url) {
        None => Err(HtmlError::InvalidUrl("Invalid URL: ".to_owned().concat(url))),
        Some(None) => Err(HtmlError::InvalidUrl("URL has no host".to_owned())),
        Some(Some(h)) => Ok(h),
    }
}

/// The operating systems whose Chrome profile location is known.
#[derive(Debug, PartialEq, Eq, Structural)]
pub enum Platform {
    MacOs,
    Linux,
    Windows,
    Other,
}

/// `base` followed by `rel`, with `sep` between them unless `base` is empty
/// or already ends in a separator (`PathBuf::join` of a relative path).
pub open spec fn path_join(base: Seq<char>, rel: Seq<char>, windows: bool) -> Seq<char> {
    if base.len() == 0 {
        rel
    } else if base.last() == '/' || (windows && base.last() == '\\') {
        base + rel
    } else if windows {
        base + seq!['\\'] + rel
    } else {
        base + seq!['/'] + rel
    }
}

/// Where Chrome keeps the cookies of its default profile, given the home
/// directory (macOS, Linux) or `LOCALAPPDATA` (Windows).
pub open spec fn cookies_path(platform: Platform, base: Option<Seq<char>>) -> Option<Seq<char>> {
    match (platform, base) {
        (Platform::MacOs, Some(h)) => Some(
            path_join(h, "Library/Application Support/Google/Chrome/Default/Cookies"@, false),
        ),
        (Platform::Linux, Some(h)) => Some(path_join(h, ".config/google-chrome/Default/Cookies"@, false)),
        (Platform::Windows, Some(p)) => Some(
            path_join(p, "Google/Chrome/User Data/Default/Network/Cookies"@, true),
        ),
        _ => None,
    }
}

/// The characters of an optional string.
pub open spec fn opt_view(o: Option<String>) -> Option<Seq<char>> {
    match o {
        Some(s) => Some(s@),
        None => None,
    }
}

fn join_path(base: String, rel: &str, windows: bool) -> (r: String)
    ensures
        r@ == path_join(base@, rel@, windows),
{
    let b = crate::text::chars_of(base.as_str());
    if b.len() == 0 {
        return rel.to_owned();
    }
    let last = b[b.len() - 1];
    if last == '/' || (windows && last == '\\') {
        base.concat(rel)
    } else {
        let mut r = base;
        if windows {
            r.push('\\');
        } else {
            r.push('/');
        }
        r.append(rel);
        r
    }
}

/// The cookie database of Chrome's default profile on `platform`.
pub fn default_cookies_path(platform: Platform, base: Option<String>) -> (r: Option<String>)
    ensures
        match r {
            Some(p) => cookies_path(platform, opt_view(base)) == Some(p@),
            None => cookies_path(platform, opt_view(base)) is None,
        },
{
    match (platform, base) {
        (Platform::MacOs, Some(h)) => Some(
            join_path(h, "Library/Application Support/Google/Chrome/Default/Cookies", false),
        ),
        (Platform::Linux, Some(h)) => Some(join_path(h, ".config/google-chrome/Default/Cookies", false)),
        (Platform::Windows, Some(p)) => Some(
            join_path(p, "Google/Chrome/User Data/Default/Network/Cookies", true),
        ),
        _ => None,
    }
}

/// The bytes after Chrome's `v10`/`v11` version prefix.
pub open spec fn chrome_payload(encrypted: Seq<u8>) -> Option<Seq<u8>> {
    if encrypted.len() >= 3 && encrypted[0] == 118 && encrypted[1] == 49 && (encrypted[2] == 48
        || encrypted[2] == 49) {
        Some(encrypted.skip(3))
    } else {
        None
    }
}

/// Strips the `v10`/`v11` prefix that Chrome puts before encrypted values.
pub fn chrome_ciphertext(encrypted: &[u8]) -> (r: Option<Vec<u8>>)
    ensures
        match r {
            Some(c) => chrome_payload(encrypted@) == Some(c@),
            None => chrome_payload(encrypted@) is None,
        },
{
    if encrypted.len() < 3 {
        return None;
    }
    if !(encrypted[0] == 118 && encrypted[1] == 49 && (encrypted[2] == 48 || encrypted[2] == 49)) {
        return None;
    }
    let n = encrypted.len();
    let mut out: Vec<u8> = Vec::new();
    let mut i: usize = 3;
    while i < n
        invariant
            3 <= i <= n == encrypted@.len(),
            out@ == encrypted@.subrange(3, i as int),
        decreases n - i,
    {
        out.push(encrypted[i]);
        assert(encrypted@.subrange(3, i + 1) == encrypted@.subrange(3, i as int).push(encrypted@[i as int]));
        i = i + 1;
    }
    Some(out)
}

/// PBKDF2 with HMAC-SHA1 as computed by the pbkdf2 crate.
pub uninterp spec fn pbkdf2_hmac_sha1(password: Seq<u8>, salt: Seq<u8>, rounds: u32, len: nat) -> Seq<u8>;

/// `pbkdf2::pbkdf2_hmac::<Sha1>` into a buffer of `dklen` bytes: the claim is
/// that the key is `pbkdf2_hmac_sha1(password, salt, iterations, dklen)` and
/// has `dklen` bytes. The block counter must fit in a `u32`.
#[verifier::external_body]
fn derive_pbkdf2_key(password: &[u8], salt: &[u8], iterations: u32, dklen: usize) -> (r: Vec<u8>)
    requires
        dklen <= 20 * 0xffff_fffe,
    ensures
        r@ == pbkdf2_hmac_sha1(password@, salt@, iterations, dklen as nat),
        r@.len() == dklen,
{
    let mut key = vec![0u8; dklen];
    pbkdf2::pbkdf2_hmac::<sha1::Sha1>(password, salt, iterations, &mut key);
    key
}

/// AES-128-CBC decryption with PKCS#7 unpadding as computed by the aes and cbc
/// crates; `None` when the padding is malformed.
pub uninterp spec fn aes128_cbc_pkcs7_decrypt(key: Seq<u8>, iv: Seq<u8>, data: Seq<u8>) -> Option<Seq<u8>>;

/// `cbc::Decryptor::<aes::Aes128>::new_from_slices` and `decrypt_padded_mut`
/// with PKCS#7: the claim is that the plaintext is
/// `aes128_cbc_pkcs7_decrypt(key, iv, data)`.
#[verifier::external_body]
fn aes128_cbc_decrypt(key: &[u8], iv: &[u8], data: &[u8]) -> (r: Option<Vec<u8>>)
    requires
        key@.len() == 16,
        iv@.len() == 16,
    ensures
        match r {
            Some(p) => aes128_cbc_pkcs7_decrypt(key@, iv@, data@) == Some(p@),
            None => aes128_cbc_pkcs7_decrypt(key@, iv@, data@) is None,
        },
{
    let dec = cbc::Decryptor::<aes::Aes128>::new_from_slices(key, iv).ok()?;
    let mut buf = data.to_vec();
    dec.decrypt_padded_mut::<cipher::block_padding::Pkcs7>(&mut buf).ok().map(|p| p.to_vec())
}

/// `String::from_utf8`: a string exactly when the bytes are valid UTF-8, and
/// then the decoded characters.
#[verifier::external_body]
fn utf8_string(bytes: Vec<u8>) -> (r: Option<String>)
    ensures
        r is Some == valid_utf8(bytes@),
        r matches Some(s) ==> s@ == decode_utf8(bytes@),
{
    String::from_utf8(bytes).ok()
}

/// The initialisation vector Chrome uses: sixteen spaces.
pub open spec fn chrome_iv() -> Seq<u8> {
    Seq::new(16, |i: int| 32u8)
}

/// The text of an AES-128-CBC ciphertext under `key` with Chrome's IV.
pub open spec fn decrypted_text(key: Seq<u8>, data: Seq<u8>) -> Option<Seq<char>> {
    if key.len() != 16 || data.len() % 16 != 0 {
        None
    } else {
        match aes128_cbc_pkcs7_decrypt(key, chrome_iv(), data) {
            Some(p) => if valid_utf8(p) {
                Some(decode_utf8(p))
            } else {
                None
            },
            None => None,
        }
    }
}

/// Decrypts a Chrome cookie ciphertext: a 16-byte key, a whole number of
/// blocks, a valid padding and a UTF-8 plaintext are all needed.
pub fn aes_cbc_decrypt(key: &[u8], cipher_text: &[u8]) -> (r: Option<String>)
    ensures
        match r {
            Some(s) => decrypted_text(key@, cipher_text@) == Some(s@),
            None => decrypted_text(key@, cipher_text@) is None,
        },
{
    if key.len() != 16 || cipher_text.len() % 16 != 0 {
        return None;
    }
    let iv: Vec<u8> = vec![32u8, 32, 32, 32, 32, 32, 32, 32, 32, 32, 32, 32, 32, 32, 32, 32];
    assert(iv@ == chrome_iv());
    match aes128_cbc_decrypt(key, iv.as_slice(), cipher_text) {
        Some(p) => utf8_string(p),
        None => None,
    }
}

/// The value of an encrypted cookie under a password and iteration count.
pub open spec fn decrypted_cookie(encrypted: Seq<u8>, password: Seq<u8>, rounds: u32) -> Option<Seq<char>> {
    match chrome_payload(encrypted) {
        Some(c) => decrypted_text(pbkdf2_hmac_sha1(password, chrome_salt(), rounds, 16), c),
        None => None,
    }
}

/// The salt Chrome derives its cookie key with.
pub open spec fn chrome_salt() -> Seq<u8> {
    "saltysalt"@.map_values(|c: char| c as u8)
}

/// The 16-byte AES key Chrome derives from a password: PBKDF2-HMAC-SHA1 over
/// the salt `saltysalt` with `rounds` iterations.
pub fn chrome_cookie_key(password: &[u8], rounds: u32) -> (r: Vec<u8>)
    ensures
        r@ == pbkdf2_hmac_sha1(password@, chrome_salt(), rounds, 16),
        r@.len() == 16,
{
    let salt: Vec<u8> = vec![115u8, 97, 108, 116, 121, 115, 97, 108, 116];
    proof {
        reveal_strlit("saltysalt");
        assert(salt@ == chrome_salt());
    }
    derive_pbkdf2_key(password, salt.as_slice(), rounds, 16)
}

fn decrypt_with_password(encrypted: &[u8], password: &[u8], rounds: u32) -> (r: Option<String>)
    ensures
        match r {
            Some(s) => decrypted_cookie(encrypted@, password@, rounds) == Some(s@),
            None => decrypted_cookie(encrypted@, password@, rounds) is None,
        },
{
    let cipher_text = match chrome_ciphertext(encrypted) {
        Some(c) => c,
        None => return None,
    };
    let key = chrome_cookie_key(password, rounds);
    aes_cbc_decrypt(key.as_slice(), cipher_text.as_slice())
}

/// The password Chrome uses on Linux without a keyring.
pub open spec fn linux_password() -> Seq<u8> {
    "peanuts"@.map_values(|c: char| c as u8)
}

/// Decrypts a cookie value stored by Chrome on Linux (fixed password
/// `peanuts`, one PBKDF2 round).
pub fn decrypt_cookie_value_linux(encrypted: &[u8]) -> (r: Option<String>)
    ensures
        match r {
            Some(s) => decrypted_cookie(encrypted@, linux_password(), 1) == Some(s@),
            None => decrypted_cookie(encrypted@, linux_password(), 1) is None,
        },
{
    let password: Vec<u8> = vec![112u8, 101, 97, 110, 117, 116, 115];
    proof {
        reveal_strlit("peanuts");
        assert(password@ == linux_password());
    }
    decrypt_with_password(encrypted, password.as_slice(), 1)
}

/// Decrypts a cookie value stored by Chrome on macOS, given the
/// "Chrome Safe Storage" keychain password (1003 PBKDF2 rounds); no value
/// when the password is missing or not UTF-8.
pub fn decrypt_cookie_value_macos(encrypted: &[u8], keychain_password: Option<&[u8]>) -> (r: Option<String>)
    ensures
        match keychain_password {
            Some(pw) => if valid_utf8(pw@) {
                match r {
                    Some(s) => decrypted_cookie(encrypted@, pw@, 1003) == Some(s@),
                    None => decrypted_cookie(encrypted@, pw@, 1003) is None,
                }
            } else {
                r is None
            },
            None => r is None,
        },
{
    match keychain_password {
        Some(pw) => {
            let copy = vstd::slice::slice_to_vec(pw);
            match utf8_string(copy) {
                Some(_) => decrypt_with_password(encrypted, pw, 1003),
                None => None,
            }
        },
        None => None,
    }
}

/// How a platform's cookie key is obtained.
pub enum CookieKeySource {
    /// The fixed Linux password.
    Linux,
    /// The macOS keychain password, if it could be read.
    Keychain(Option<Vec<u8>>),
    /// No decryption is known here.
    Unsupported,
}

/// The plaintext of an encrypted cookie value under a platform's key.
pub open spec fn key_decryption(encrypted: Seq<u8>, key: CookieKeySource) -> Option<Seq<char>> {
    match key {
        CookieKeySource::Linux => decrypted_cookie(encrypted, linux_password(), 1),
        CookieKeySource::Keychain(Some(pw)) => if valid_utf8(pw@) {
            decrypted_cookie(encrypted, pw@, 1003)
        } else {
            None
        },
        CookieKeySource::Keychain(None) => None,
        CookieKeySource::Unsupported => None,
    }
}

/// Decrypts a cookie value with the key of its platform.
pub fn decrypt_cookie_value(encrypted: &[u8], key: &CookieKeySource) -> (r: Option<String>)
    ensures
        match r {
            Some(s) => key_decryption(encrypted@, *key) == Some(s@),
            None => key_decryption(encrypted@, *key) is None,
        },
{
    match key {
        CookieKeySource::Linux => decrypt_cookie_value_linux(encrypted),
        CookieKeySource::Keychain(Some(pw)) => decrypt_cookie_value_macos(encrypted, Some(pw.as_slice())),
        CookieKeySource::Keychain(None) => None,
        CookieKeySource::Unsupported => None,
    }
}

/// A cookie read from Chrome's profile.
#[derive(Debug)]
pub struct ChromeCookie {
    pub host_key: String,
    pub name: String,
    pub value: String,
    pub path: String,
    pub expires_utc: i64,
    pub is_secure: bool,
}

impl Clone for ChromeCookie {
    fn clone(&self) -> (r: Self)
        ensures
            r == *self,
    {
        ChromeCookie {
            host_key: self.host_key.clone(),
            name: self.name.clone(),
            value: self.value.clone(),
            path: self.path.clone(),
            expires_utc: self.expires_utc,
            is_secure: self.is_secure,
        }
    }
}

/// A row of Chrome's `cookies` table, as read.
#[derive(Debug)]
pub struct CookieRow {
    pub host_key: String,
    pub name: String,
    pub encrypted_value: Vec<u8>,
    pub value: String,
    pub path: String,
    pub expires_utc: i64,
    pub is_secure: i32,
}

/// A row's cookie value: the decrypted value when the row holds an encrypted
/// one and it decrypts, else the plaintext column.
pub open spec fn row_value(row: CookieRow, key: CookieKeySource) -> Seq<char> {
    if row.encrypted_value@.len() == 0 {
        row.value@
    } else {
        match key_decryption(row.encrypted_value@, key) {
            Some(s) => s,
            None => row.value@,
        }
    }
}

/// `c` is the cookie of `row`.
pub open spec fn cookie_of_row(row: CookieRow, key: CookieKeySource, c: ChromeCookie) -> bool {
    &&& c.host_key == row.host_key
    &&& c.name == row.name
    &&& c.value@ == row_value(row, key)
    &&& c.path == row.path
    &&& c.expires_utc == row.expires_utc
    &&& c.is_secure == (row.is_secure != 0)
}

/// The cookie of a row of Chrome's `cookies` table.
pub fn chrome_cookie_from_row(row: CookieRow, key: &CookieKeySource) -> (r: ChromeCookie)
    ensures
        cookie_of_row(row, *key, r),
{
    let CookieRow { host_key, name, encrypted_value, value, path, expires_utc, is_secure } = row;
    let value = if encrypted_value.len() == 0 {
        value
    } else {
        match decrypt_cookie_value(encrypted_value.as_slice(), key) {
            Some(d) => d,
            None => value,
        }
    };
    ChromeCookie { host_key, name, value, path, expires_utc, is_secure: is_secure != 0 }
}

/// `s` without its leading dots.
pub open spec fn trim_dots(s: Seq<char>) -> Seq<char>
    decreases s.len(),
{
    if s.len() > 0 && s[0] == '.' {
        trim_dots(s.drop_first())
    } else {
        s
    }
}

/// A cookie stored under `host_key` belongs to `host`: the host is the
/// cookie's domain (leading dots dropped) or lies under it.
pub open spec fn domain_matches(host: Seq<char>, host_key: Seq<char>) -> bool {
    let d = trim_dots(host_key);
    host == d || has_suffix(host, seq!['.'] + d)
}

/// Whether a cookie stored under `host_key` belongs to `host`.
pub fn cookie_domain_matches(host: &str, host_key: &str) -> (r: bool)
    ensures
        r == domain_matches(host@, host_key@),
{
    let h = chars_of(host);
    let k = chars_of(host_key);
    let n = k.len();
    let mut lo: usize = 0;
    assert(k@.skip(0) == k@);
    while lo < n && k[lo] == '.'
        invariant
            lo <= n == k@.len(),
            trim_dots(k@) == trim_dots(k@.skip(lo as int)),
        decreases n - lo,
    {
        assert(k@.skip(lo as int).drop_first() == k@.skip(lo + 1));
        lo = lo + 1;
    }
    let d = vec_range(&k, lo, n);
    assert(d@ == k@.skip(lo as int));
    assert(trim_dots(d@) == d@);
    let mut dotted: Vec<char> = Vec::new();
    dotted.push('.');
    for i in 0..d.len()
        invariant
            dotted@ == seq!['.'] + d@.take(i as int),
    {
        assert(d@.take(i + 1) == d@.take(i as int).push(d@[i as int]));
        dotted.push(d[i]);
        assert(dotted@ == seq!['.'] + d@.take(i + 1));
    }
    assert(d@.take(d@.len() as int) == d@);
    let same = h.len() == d.len() && seq_starts_with(&h, &d);
    proof {
        if h@.len() == d@.len() && has_prefix(h@, d@) {
            assert(h@.take(d@.len() as int) == h@);
        }
        if h@ == d@ {
            assert(h@.take(d@.len() as int) == h@);
        }
    }
    same || seq_ends_with(&h, &dotted)
}

/// The rows that could be read and whose cookies belong to `host`, in order.
pub open spec fn kept_rows(rows: Seq<Option<CookieRow>>, host: Seq<char>) -> Seq<CookieRow>
    decreases rows.len(),
{
    if rows.len() == 0 {
        Seq::empty()
    } else {
        let rest = kept_rows(rows.drop_last(), host);
        match rows.last() {
            Some(row) => if domain_matches(host, row.host_key@) {
                rest.push(row)
            } else {
                rest
            },
            None => rest,
        }
    }
}

/// Reads Chrome's cookie store: which host to look up and where the store is.
pub struct ChromeCookieExtractor;

/// The message when no Chrome profile location is known.
pub open spec fn profile_not_found_message() -> Seq<char> {
    "Chrome profile not found. Expected at:\nmacOS: ~/Library/Application Support/Google/Chrome/Default/Cookies\nLinux: ~/.config/google-chrome/Default/Cookies\nWindows: %LOCALAPPDATA%\\Google\\Chrome\\User Data\\Default\\Network\\Cookies\n\nVerify Google Chrome is installed, or use 'debug_port' to connect to a running Chrome instance."@
}

/// The host whose cookies to read and the store to read them from.
#[derive(Debug)]
pub struct CookieLookup {
    pub host: String,
    pub db_path: String,
}

impl ChromeCookieExtractor {
    /// The lookup for a page at `url`: its host, then the profile's cookie
    /// store for `platform` under `base` (the home directory, or on Windows
    /// the local application data directory).
    pub fn lookup(&self, url: &str, platform: Platform, base: Option<String>) -> (r: Result<CookieLookup, HtmlError>)
        ensures
            !(url_parse_host(url@) matches Some(Some(_))) ==> (r matches Err(HtmlError::InvalidUrl(m)) && (
            url_parse_host(url@) is None ==> m@ == "Invalid URL: "@ + url@) && (url_parse_host(url@) == Some(
                None::<Seq<char>>,
            ) ==> m@ == "URL has no host"@)),
            url_parse_host(url@) matches Some(Some(h)) ==> match cookies_path(platform, opt_view(base)) {
                Some(p) => r matches Ok(l) && l.host@ == h && l.db_path@ == p,
                None => r matches Err(HtmlError::CookieExtractionError(m)) && m@ == profile_not_found_message(),
            },
    {
        let host = match cookie_host(url) {
            Ok(h) => h,
            Err(e) => return Err(e),
        };
        match default_cookies_path(platform, base) {
            Some(db_path) => Ok(CookieLookup { host, db_path }),
            None => Err(
                HtmlError::CookieExtractionError(
                    "Chrome profile not found. Expected at:\nmacOS: ~/Library/Application Support/Google/Chrome/Default/Cookies\nLinux: ~/.config/google-chrome/Default/Cookies\nWindows: %LOCALAPPDATA%\\Google\\Chrome\\User Data\\Default\\Network\\Cookies\n\nVerify Google Chrome is installed, or use 'debug_port' to connect to a running Chrome instance.".to_owned(),
                ),
            ),
        }
    }

    /// The error when the cookie store is not on disk.
    pub fn missing_store(&self, db_path: &str) -> (e: HtmlError)
        ensures
            e matches HtmlError::CookieExtractionError(m) && m@ == "Chrome cookies file not found at: "@ + db_path@,
    {
        HtmlError::CookieExtractionError("Chrome cookies file not found at: ".to_owned().concat(db_path))
    }

    /// The cookies of the rows that could be read and belong to `host`, in
    /// order; rows that could not be read, and cookies of other domains, are
    /// skipped.
    pub fn collect(&self, host: &str, rows: Vec<Option<CookieRow>>, key: &CookieKeySource) -> (r: Vec<ChromeCookie>)
        ensures
            r@.len() == kept_rows(rows@, host@).len(),
            forall|i: int| 0 <= i < r@.len() ==> cookie_of_row(kept_rows(rows@, host@)[i], *key, #[trigger] r@[i]),
            forall|i: int| 0 <= i < r@.len() ==> domain_matches(host@, (#[trigger] r@[i]).host_key@),
    {
        let ghost all = rows@;
        let mut rows = rows;
        let mut out: Vec<ChromeCookie> = Vec::new();
        let ghost mut k: int = 0;
        while rows.len() > 0
            invariant
                0 <= k <= all.len(),
                rows@ == all.subrange(k, all.len() as int),
                out@.len() == kept_rows(all.take(k), host@).len(),
                forall|i: int| 0 <= i < out@.len() ==> cookie_of_row(kept_rows(all.take(k), host@)[i], *key, #[trigger] out@[i]),
                forall|i: int| 0 <= i < out@.len() ==> domain_matches(host@, (#[trigger] out@[i]).host_key@),
            decreases rows.len(),
        {
            let item = rows.remove(0);
            proof {
                assert(all.take(k + 1).drop_last() =~= all.take(k));
                assert(all.take(k + 1).last() == item);
            }
            match item {
                Some(row) => {
                    if cookie_domain_matches(host, row.host_key.as_str()) {
                        let c = chrome_cookie_from_row(row, key);
                        out.push(c);
                    }
                },
                None => {},
            }
            proof {
                k = k + 1;
            }
            assert(rows@ =~= all.subrange(k, all.len() as int));
        }
        assert(all.take(all.len() as int) =~= all);
        out
    }
}

} // verus!
