//! The encrypted file store: one AES-256-GCM sealed ledger
//! `<dir>/credentials.enc`, its key in `<dir>/.encryption_key` with the
//! system keyring as fallback. The file and keyring access stays with the
//! caller, which hands in what it read and carries out what is decided here.

use vstd::prelude::*;
use vstd::string::StringExecFns;

use crate::auth_error::AuthError;
use crate::credentials::Credentials;
use crate::crypto::{
    base64_standard, base64_standard_decode, candidate_plaintexts, choose_save_key, decryption_candidates,
    encode_key, encrypt, encryption_key_path, generate_random_key, is_base64_char, key_from_text,
    key_view, sealed_for, GCM_MAX_PLAINTEXT,
};
use crate::paths::{join, path_join};
use crate::text::{is_white_space, trimmed};

verus! {

broadcast use vstd::string::to_string_from_display_ensures_for_str;

/// The key a key text holds: its Base64 text without surrounding whitespace,
/// when that decodes to 32 bytes.
pub open spec fn key_of_text(text: Option<String>) -> Option<Seq<u8>> {
    match text {
        Some(t) => match base64_standard_decode(trimmed(t@)) {
            Some(b) if b.len() == 32 => Some(b),
            _ => None,
        },
        None => None,
    }
}

/// What reading the credential file gave.
#[derive(Debug)]
pub enum LedgerFile {
    /// There is no such file.
    Missing,
    /// Reading failed (the error's text).
    Unreadable(String),
    /// The file's bytes.
    Present(Vec<u8>),
}

/// What a save does.
#[derive(Debug)]
pub enum SavePlan {
    /// The ledger is empty: remove the credential file instead.
    Clear,
    /// Store `key_text` as the key (file, and keyring when enabled), then
    /// write `sealed` as the credential file (or fail with its error).
    Write { key: [u8; 32], key_text: String, sealed: Result<Vec<u8>, AuthError> },
}

/// The encrypted file credential store of a configuration directory.
#[derive(Debug, Clone)]
pub struct EncryptedFileCredentialStore {
    dir: String,
    use_keyring: bool,
}

impl EncryptedFileCredentialStore {
    pub closed spec fn spec_dir(self) -> Seq<char> {
        self.dir@
    }

    pub closed spec fn spec_keyring(self) -> bool {
        self.use_keyring
    }

    /// A store in `dir`, with the keyring fallback enabled.
    pub fn new(dir: String) -> (s: EncryptedFileCredentialStore)
        ensures
            s.spec_dir() == dir@,
            s.spec_keyring(),
    {
        EncryptedFileCredentialStore { dir, use_keyring: true }
    }

    /// The configuration directory.
    pub fn dir(&self) -> (r: &str)
        ensures
            r@ == self.spec_dir(),
    {
        self.dir.as_str()
    }

    /// Whether the keyring fallback is enabled.
    pub fn keyring_enabled(&self) -> (r: bool)
        ensures
            r == self.spec_keyring(),
    {
        self.use_keyring
    }

    /// Enables or disables the keyring fallback (off where no keyring exists;
    /// the key then lives in the key file only).
    pub fn with_keyring(self, enabled: bool) -> (s: EncryptedFileCredentialStore)
        ensures
            s.spec_dir() == self.spec_dir(),
            s.spec_keyring() == enabled,
    {
        EncryptedFileCredentialStore { use_keyring: enabled, ..self }
    }

    /// `<dir>/credentials.enc`.
    pub fn credentials_path(&self) -> (r: String)
        ensures
            r@ == path_join(self.spec_dir(), "credentials.enc"@),
    {
        join(self.dir.as_str(), "credentials.enc")
    }

    /// The separate files of the older layout, `<dir>/bot.enc` and
    /// `<dir>/token.enc`; they are read by migration only and never removed.
    pub fn legacy_paths(&self) -> (r: [String; 2])
        ensures
            r[0]@ == path_join(self.spec_dir(), "bot.enc"@),
            r[1]@ == path_join(self.spec_dir(), "token.enc"@),
    {
        [join(self.dir.as_str(), "bot.enc"), join(self.dir.as_str(), "token.enc")]
    }

    /// `<dir>/.encryption_key`.
    pub fn encryption_key_path(&self) -> (r: String)
        ensures
            r@ == path_join(self.spec_dir(), ".encryption_key"@),
    {
        encryption_key_path(self.dir.as_str())
    }

    /// A fresh random key.
    pub fn generate_key(&self) -> [u8; 32] {
        generate_random_key()
    }

    /// The storage error of a failed read of the credential file.
    pub fn read_failed(&self, detail: &str) -> (e: AuthError)
        ensures
            e matches AuthError::Storage(m) && m@ == "读取凭据文件 "@ + path_join(
                self.spec_dir(),
                "credentials.enc"@,
            ) + " 失败: "@ + detail@,
    {
        let mut m = "读取凭据文件 ".to_string();
        let p = self.credentials_path();
        m.append(p.as_str());
        m.append(" 失败: ");
        m.append(detail);
        AuthError::Storage(m)
    }

    /// The storage error of a failed removal of the credential file.
    pub fn remove_failed(&self, detail: &str) -> (e: AuthError)
        ensures
            e matches AuthError::Storage(m) && m@ == "删除凭据文件 "@ + path_join(
                self.spec_dir(),
                "credentials.enc"@,
            ) + " 失败: "@ + detail@,
    {
        let mut m = "删除凭据文件 ".to_string();
        let p = self.credentials_path();
        m.append(p.as_str());
        m.append(" 失败: ");
        m.append(detail);
        AuthError::Storage(m)
    }

    /// What a load makes of the credential file: a missing file is no ledger
    /// and no error; a failed read is a storage error; otherwise the
    /// plaintexts under the file key and (when enabled) the keyring key, in
    /// that order. The first that parses is the ledger; none parsing means
    /// no ledger (a corrupt file or a wrong key is no error either).
    pub fn load_step(&self, file: LedgerFile, file_key_text: Option<String>, keyring_key_text: Option<String>) -> (r:
        Result<Vec<Vec<u8>>, AuthError>)
        ensures
            match file {
                LedgerFile::Missing => r matches Ok(v) && v@.len() == 0,
                LedgerFile::Unreadable(d) => r matches Err(AuthError::Storage(m)) && m@ == "读取凭据文件 "@
                    + path_join(self.spec_dir(), "credentials.enc"@) + " 失败: "@ + d@,
                LedgerFile::Present(data) => r matches Ok(v) && v@.map_values(|p: Vec<u8>| p@)
                    == candidate_plaintexts(
                    data@,
                    key_of_text(file_key_text),
                    key_of_text(keyring_key_text),
                    self.spec_keyring(),
                ),
            },
    {
        match file {
            LedgerFile::Missing => Ok(Vec::new()),
            LedgerFile::Unreadable(d) => Err(self.read_failed(d.as_str())),
            LedgerFile::Present(data) => {
                let fk = match &file_key_text {
                    Some(t) => key_from_text(t.as_str()),
                    None => None,
                };
                let kk = match &keyring_key_text {
                    Some(t) => key_from_text(t.as_str()),
                    None => None,
                };
                assert(key_view(fk) == key_of_text(file_key_text));
                assert(key_view(kk) == key_of_text(keyring_key_text));
                Ok(decryption_candidates(data.as_slice(), fk, kk, self.use_keyring))
            },
        }
    }

    /// What saving `creds` (whose JSON text is `ledger_json`) does: an empty
    /// ledger clears the store; otherwise the ledger is sealed under the file
    /// key, else the keyring key (when enabled), else a fresh key, and that
    /// key is stored first.
    pub fn save_plan(
        &self,
        creds: &Credentials,
        ledger_json: &[u8],
        file_key_text: Option<String>,
        keyring_key_text: Option<String>,
    ) -> (r: SavePlan)
        ensures
            creds.spec_is_empty() ==> r is Clear,
            !creds.spec_is_empty() ==> (r matches SavePlan::Write { key, key_text, sealed } && key_text@
                == base64_standard(key@) && base64_standard_decode(key_text@) == Some(key@) && (forall|
                i: int,
            | 0 <= i < key_text@.len() ==> is_base64_char(#[trigger] key_text@[i])) && (key_of_text(file_key_text) matches Some(k) ==> key@ == k)
                && (key_of_text(file_key_text) is None && self.spec_keyring() && key_of_text(
                keyring_key_text,
            ) is Some ==> key@ == key_of_text(keyring_key_text)->0) && (ledger_json@.len()
                <= GCM_MAX_PLAINTEXT <==> sealed is Ok) && (sealed matches Ok(s) ==> sealed_for(
                key@,
                ledger_json@,
                s@,
            )) && (sealed is Err ==> sealed matches Err(AuthError::Crypto(_)))),
    {
        if creds.is_empty() {
            return SavePlan::Clear;
        }
        let fk = match &file_key_text {
            Some(t) => key_from_text(t.as_str()),
            None => None,
        };
        let kk = match &keyring_key_text {
            Some(t) => key_from_text(t.as_str()),
            None => None,
        };
        assert(key_view(fk) == key_of_text(file_key_text));
        assert(key_view(kk) == key_of_text(keyring_key_text));
        let key = choose_save_key(fk, kk, self.use_keyring);
        let key_text = encode_key(&key);
        let sealed = encrypt(&key, ledger_json);
        SavePlan::Write { key, key_text, sealed }
    }
}

/// The stage of an atomic file write (temporary file in the same
/// directory, then a rename onto the target) that failed.
#[derive(Debug, Clone, Copy, PartialEq, Eq, Structural)]
pub enum WriteStage {
    /// The target has no parent directory.
    NoParent,
    /// Creating the parent directory.
    CreateDir,
    /// Creating the temporary file.
    CreateTemp,
    /// Restricting the temporary file's permissions.
    SetMode,
    /// Writing the data.
    Write,
    /// Flushing the data to disk.
    Sync,
    /// Renaming the temporary file onto the target.
    Persist,
}

/// The storage error text of a failed atomic write: `path` is the target as
/// displayed, `parent` its directory as displayed and `parent_debug` as
/// debug-formatted, `detail` the underlying error's text.
pub open spec fn write_failure_text(
    stage: WriteStage,
    path: Seq<char>,
    parent: Seq<char>,
    parent_debug: Seq<char>,
    detail: Seq<char>,
) -> Seq<char> {
    match stage {
        WriteStage::NoParent => "无效文件路径: "@ + path,
        WriteStage::CreateDir => "创建目录 "@ + parent + " 失败: "@ + detail,
        WriteStage::CreateTemp => "在 "@ + parent_debug + " 中创建临时文件失败: "@ + detail,
        WriteStage::SetMode => "设置临时文件权限失败: "@ + detail,
        WriteStage::Write => "写入临时文件失败: "@ + detail,
        WriteStage::Sync => "同步临时文件失败: "@ + detail,
        WriteStage::Persist => "原子写入 "@ + path + " 失败: "@ + detail,
    }
}

/// The storage error of a failed atomic write (see [`write_failure_text`]).
pub fn atomic_write_error(stage: WriteStage, path: &str, parent: &str, parent_debug: &str, detail: &str) -> (e:
    AuthError)
    ensures
        e matches AuthError::Storage(m) && m@ == write_failure_text(stage, path@, parent@, parent_debug@, detail@),
{
    let mut m = String::new();
    match stage {
        WriteStage::NoParent => {
            m.append("无效文件路径: ");
            m.append(path);
        },
        WriteStage::CreateDir => {
            m.append("创建目录 ");
            m.append(parent);
            m.append(" 失败: ");
            m.append(detail);
        },
        WriteStage::CreateTemp => {
            m.append("在 ");
            m.append(parent_debug);
            m.append(" 中创建临时文件失败: ");
            m.append(detail);
        },
        WriteStage::SetMode => {
            m.append("设置临时文件权限失败: ");
            m.append(detail);
        },
        WriteStage::Write => {
            m.append("写入临时文件失败: ");
            m.append(detail);
        },
        WriteStage::Sync => {
            m.append("同步临时文件失败: ");
            m.append(detail);
        },
        WriteStage::Persist => {
            m.append("原子写入 ");
            m.append(path);
            m.append(" 失败: ");
            m.append(detail);
        },
    }
    AuthError::Storage(m)
}

/// Text without whitespace at either end is its own trimming.
proof fn lemma_trimmed_plain(s: Seq<char>)
    requires
        s.len() == 0 || (!is_white_space(s[0]) && !is_white_space(s.last())),
    ensures
        trimmed(s) == s,
{
}

/// Law: what a save writes, a load reads back first. The key text a save
/// stores decodes to its key, so the ledger sealed under that key is the
/// first plaintext a load of the file finds.
pub proof fn law_file_store_roundtrip(
    store: EncryptedFileCredentialStore,
    ledger_json: Seq<u8>,
    key: Seq<u8>,
    key_text: String,
    sealed: Seq<u8>,
    keyring_key_text: Option<String>,
)
    requires
        key.len() == 32,
        key_text@ == base64_standard(key),
        base64_standard_decode(key_text@) == Some(key),
        forall|i: int| 0 <= i < key_text@.len() ==> is_base64_char(#[trigger] key_text@[i]),
        sealed_for(key, ledger_json, sealed),
    ensures
        key_of_text(Some(key_text)) == Some(key),
        candidate_plaintexts(sealed, key_of_text(Some(key_text)), key_of_text(keyring_key_text), store.spec_keyring()).len() >= 1,
        candidate_plaintexts(sealed, key_of_text(Some(key_text)), key_of_text(keyring_key_text), store.spec_keyring())[0] == ledger_json,
{
    let t = key_text@;
    if t.len() > 0 {
        assert(is_base64_char(t[0]));
        assert(is_base64_char(t[t.len() - 1]));
    }
    lemma_trimmed_plain(t);
}

} // verus!
