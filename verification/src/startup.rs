//! What the server decides while it starts: the administrator's password on
//! first start, the check of that password on later starts, the master key
//! from the stored salt, the masked terminal input, and which embedded page
//! answers a path.
use crate::auth::{auth_error_text, password_check, verify_password, JwtSecret};
use crate::crypto::{master_info, MasterKey};
use crate::primitives::{base64_decode, base64_encode, base64_standard_decode, hkdf_sha256, random_uuid_text};
use crate::text::{chars_of, concat, has_prefix, same_text, string_from_chars};
use vstd::prelude::*;
use vstd::string::*;
use vstd::utf8::*;

verus! {

/// The shortest administrator password, in bytes.
pub const MIN_ADMIN_PASSWORD_BYTES: usize = 6;

/// The next step of setting the administrator's password on first start.
#[derive(Debug, Clone, Copy, PartialEq, Eq, Structural)]
pub enum PasswordSetup {
    /// The first entry is too short: ask again from the start.
    TooShort,
    /// The first entry is long enough: ask for it a second time.
    Confirm,
    /// The second entry differs: ask again from the start.
    Mismatch,
    /// Both entries agree: this is the password.
    Accepted,
}

impl PasswordSetup {
    /// The line printed for this step, if any.
    pub fn message(&self) -> (m: Option<String>)
        ensures
            *self == PasswordSetup::TooShort ==> (m matches Some(t) && t@ == "密码至少需要 6 位，请重新输入"@),
            *self == PasswordSetup::Mismatch ==> (m matches Some(t) && t@ == "两次输入不一致，请重新设置"@),
            (*self == PasswordSetup::Confirm || *self == PasswordSetup::Accepted) ==> m is None,
    {
        match self {
            PasswordSetup::TooShort => Some(String::from_str("密码至少需要 6 位，请重新输入")),
            PasswordSetup::Mismatch => Some(String::from_str("两次输入不一致，请重新设置")),
            _ => None,
        }
    }
}

/// Decides the step of the first-start password dialogue from the first
/// entry and, once asked for, the second.
pub fn password_setup_step(first: &str, second: Option<&str>) -> (step: PasswordSetup)
    ensures
        encode_utf8(first@).len() < MIN_ADMIN_PASSWORD_BYTES ==> step == PasswordSetup::TooShort,
        encode_utf8(first@).len() >= MIN_ADMIN_PASSWORD_BYTES ==> match second {
            None => step == PasswordSetup::Confirm,
            Some(s) => if s@ == first@ {
                step == PasswordSetup::Accepted
            } else {
                step == PasswordSetup::Mismatch
            },
        },
{
    if first.as_bytes().len() < MIN_ADMIN_PASSWORD_BYTES {
        return PasswordSetup::TooShort;
    }
    match second {
        None => PasswordSetup::Confirm,
        Some(s) => if same_text(s, first) {
            PasswordSetup::Accepted
        } else {
            PasswordSetup::Mismatch
        },
    }
}

/// Checks the administrator's password on a later start against the stored
/// hash of the first administrator account; the error is the line printed
/// before the server stops.
pub fn check_startup_password(admin_hash: Option<&str>, password: &str) -> (res: Result<(), String>)
    ensures
        admin_hash is None ==> (res matches Err(m) && m@ == "数据库中没有管理员账号"@),
        admin_hash matches Some(h) ==> match password_check(password@, h@) {
            Err(e) => res matches Err(m) && m@ == "验证失败: "@ + auth_error_text(e),
            Ok(false) => res matches Err(m) && m@ == "❌ 密码错误"@,
            Ok(true) => res is Ok,
        },
{
    let h = match admin_hash {
        None => return Err(String::from_str("数据库中没有管理员账号")),
        Some(h) => h,
    };
    match verify_password(password, h) {
        Err(e) => Err(concat("验证失败: ", e.message().as_str())),
        Ok(false) => Err(String::from_str("❌ 密码错误")),
        Ok(true) => Ok(()),
    }
}

/// The secret that signs the tokens of this run: a fresh random UUID text,
/// so that tokens of an earlier run are refused.
pub fn fresh_jwt_secret() -> (s: JwtSecret)
    ensures
        s.0@.len() == 36,
{
    JwtSecret(random_uuid_text())
}

/// The stored text of a master-key salt: its base64 encoding, which reads
/// back as the salt.
pub fn salt_text(salt: &[u8; 16]) -> (t: String)
    ensures
        base64_standard_decode(t@) == Some(salt@),
{
    base64_encode(salt.as_slice())
}

/// Why the stored salt cannot be used.
#[derive(Debug, Clone, Copy, PartialEq, Eq, Structural)]
pub enum SaltError {
    /// The stored text is not base64.
    InvalidEncoding,
    /// The stored salt is shorter than 16 bytes.
    TooShort,
}

/// The salt a stored text gives: the first 16 bytes it decodes to.
pub open spec fn stored_salt(text: Seq<char>) -> Result<Seq<u8>, SaltError> {
    match base64_standard_decode(text) {
        None => Err(SaltError::InvalidEncoding),
        Some(d) => if d.len() < 16 {
            Err(SaltError::TooShort)
        } else {
            Ok(d.take(16))
        },
    }
}

/// Derives the master key on a later start (`resolve_master_key`) from the
/// administrator's password and the stored salt.
pub fn resolve_master_key(salt_b64: &str, password: &str) -> (res: Result<MasterKey, SaltError>)
    ensures
        match stored_salt(salt_b64@) {
            Err(e) => res == Err::<MasterKey, _>(e),
            Ok(s) => res matches Ok(k) && k@ == hkdf_sha256(Some(s), encode_utf8(password@), master_info(), 32),
        },
{
    let decoded = match base64_decode(salt_b64) {
        None => return Err(SaltError::InvalidEncoding),
        Some(d) => d,
    };
    if decoded.len() < 16 {
        return Err(SaltError::TooShort);
    }
    let salt = vstd::slice::slice_subrange(decoded.as_slice(), 0, 16);
    Ok(MasterKey::derive_from_password(password, salt))
}

/// The key a later start derives from the salt stored on first start and the
/// same password is the key the first start derived.
pub proof fn lemma_stored_salt_gives_same_key(salt: Seq<u8>, text: Seq<char>, password: Seq<char>)
    requires
        salt.len() == 16,
        base64_standard_decode(text) == Some(salt),
    ensures
        stored_salt(text) == Ok::<_, SaltError>(salt),
        hkdf_sha256(Some(stored_salt(text).unwrap()), encode_utf8(password), master_info(), 32)
            == hkdf_sha256(Some(salt), encode_utf8(password), master_info(), 32),
{
    assert(salt.take(16) =~= salt);
}

/// What a key pressed during masked password input does.
#[derive(Debug, Clone, Copy, PartialEq, Eq, Structural)]
pub enum KeyAction {
    /// Enter: the password is complete.
    Finish,
    /// Backspace or delete: drop the last character.
    Erase,
    /// Control-C: restore the terminal and stop.
    Abort,
    /// Any other byte: append it as a character and echo a star.
    Append(char),
}

/// Decides what one byte read from the terminal does.
pub fn key_action(byte: u8) -> (a: KeyAction)
    ensures
        (byte == 10 || byte == 13) ==> a == KeyAction::Finish,
        (byte == 0x7f || byte == 0x08) ==> a == KeyAction::Erase,
        byte == 0x03 ==> a == KeyAction::Abort,
        !(byte == 10 || byte == 13 || byte == 0x7f || byte == 0x08 || byte == 0x03) ==> (a matches KeyAction::Append(c) && c as u32 == byte as u32),
{
    if byte == 10 || byte == 13 {
        KeyAction::Finish
    } else if byte == 0x7f || byte == 0x08 {
        KeyAction::Erase
    } else if byte == 0x03 {
        KeyAction::Abort
    } else {
        KeyAction::Append(byte as char)
    }
}

/// What one key does to the password typed so far: an erase drops the last
/// character (of an empty text, nothing), an appended character goes at
/// the end; finishing or aborting leaves the text as it is.
pub open spec fn typed_after(typed: Seq<char>, a: KeyAction) -> Seq<char> {
    match a {
        KeyAction::Erase => if typed.len() > 0 {
            typed.drop_last()
        } else {
            typed
        },
        KeyAction::Append(c) => typed.push(c),
        _ => typed,
    }
}

/// One step of masked password input: decides what the byte read does and
/// applies it to the text typed so far. The caller echoes, stops on
/// `Finish` and restores the terminal on `Abort`.
pub fn type_key(typed: &mut Vec<char>, byte: u8) -> (a: KeyAction)
    ensures
        (byte == 10 || byte == 13) ==> a == KeyAction::Finish,
        (byte == 0x7f || byte == 0x08) ==> a == KeyAction::Erase,
        byte == 0x03 ==> a == KeyAction::Abort,
        !(byte == 10 || byte == 13 || byte == 0x7f || byte == 0x08 || byte == 0x03) ==> (a matches KeyAction::Append(c) && c as u32 == byte as u32),
        final(typed)@ == typed_after(old(typed)@, a),
{
    let a = key_action(byte);
    match a {
        KeyAction::Erase => {
            if typed.len() > 0 {
                typed.pop();
            }
        },
        KeyAction::Append(c) => typed.push(c),
        _ => {},
    }
    a
}

/// The asset a request path names: the path without its leading slashes,
/// or the index page for the root.
pub open spec fn asset_of(path: Seq<char>) -> Seq<char> {
    let rest = path.skip(leading_slashes(path, 0) as int);
    if rest.len() == 0 {
        "index.html"@
    } else {
        rest
    }
}

/// The number of slashes `path` begins with, counting from `i`.
pub open spec fn leading_slashes(path: Seq<char>, i: int) -> nat
    decreases path.len() - i,
{
    if i < 0 || i >= path.len() || path[i] != '/' {
        0
    } else {
        1 + leading_slashes(path, i + 1)
    }
}

proof fn lemma_leading_slashes(path: Seq<char>, i: int)
    requires
        0 <= i <= path.len(),
    ensures
        i + leading_slashes(path, i) <= path.len(),
    decreases path.len() - i,
{
    if i < path.len() && path[i] == '/' {
        lemma_leading_slashes(path, i + 1);
    }
}

/// The asset a request path names (`static_handler`).
pub fn asset_path(path: &str) -> (a: String)
    ensures
        a@ == asset_of(path@),
{
    let chars = chars_of(path);
    let n = chars.len();
    let mut i: usize = n;
    proof {
        lemma_leading_slashes(path@, 0);
    }
    let mut k: usize = 0;
    while k < n && chars[k] == '/'
        invariant
            chars@ == path@,
            n == path@.len(),
            k <= n,
            k + leading_slashes(path@, k as int) == leading_slashes(path@, 0),
        decreases n - k,
    {
        k = k + 1;
    }
    proof {
        lemma_leading_slashes(path@, k as int);
    }
    let rest = vstd::slice::slice_subrange(chars.as_slice(), k, n);
    assert(rest@ =~= path@.skip(leading_slashes(path@, 0) as int));
    if rest.len() == 0 {
        return String::from_str("index.html");
    }
    string_from_chars(rest)
}

/// Whether a path that names no asset is answered with the index page: all
/// but API paths are, so that the page's own routes survive a reload.
pub fn serves_index_instead(asset: &str) -> (b: bool)
    ensures
        b == !has_prefix(asset@, "api/"@),
{
    let chars = chars_of(asset);
    let prefix = chars_of("api/");
    if chars.len() < prefix.len() {
        return true;
    }
    let head = vstd::slice::slice_subrange(chars.as_slice(), 0, prefix.len());
    let head_text = string_from_chars(head);
    !same_text(head_text.as_str(), "api/")
}

/// How a request for a static asset is answered.
#[derive(Debug, Clone)]
pub enum StaticAnswer {
    /// The asset itself, with its content type.
    Asset { path: String, content_type: String },
    /// The index page, as HTML.
    Index,
    /// 404 with the text `Not found`.
    NotFound,
}

/// Decides the answer to a request for a static asset (`static_handler`):
/// the asset when it is bundled, with the MIME type its extension gives;
/// else the index page for any path but an API path, when the index is
/// bundled; else 404.
pub fn static_answer(asset: &str, asset_found: bool, index_found: bool) -> (a: StaticAnswer)
    ensures
        asset_found ==> (a matches StaticAnswer::Asset { path, content_type } && path@ == asset@
            && content_type@ == crate::primitives::mime_of_path(asset@)),
        !asset_found && !has_prefix(asset@, "api/"@) && index_found ==> a is Index,
        !asset_found && (has_prefix(asset@, "api/"@) || !index_found) ==> a is NotFound,
{
    if asset_found {
        return StaticAnswer::Asset { path: String::from_str(asset), content_type: crate::primitives::guess_mime(asset) };
    }
    if serves_index_instead(asset) && index_found {
        StaticAnswer::Index
    } else {
        StaticAnswer::NotFound
    }
}

} // verus!
