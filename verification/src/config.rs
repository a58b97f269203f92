//! Configuration (`config.json`): its shape, its defaults, the check that it is
//! usable, and the localized console language.
use crate::text::{
    all_ascii, ascii_lower_text, decimal_digits, is_ascii_alphanumeric, push_char,
    push_decimal_digits, same_text, to_lowercase, trim, trimmed, unicode_lowercase,
    parse_unsigned, parse_unsigned_text,
};
use vstd::prelude::*;
use vstd::set_lib::{lemma_int_range, lemma_len_subset, lemma_map_size, set_int_range};

verus! {

/// Top-level configuration. Created interactively on first run and editable by
/// hand afterwards. Login token caches live under `data_dir` (default `.afk`),
/// one file per account, instead of inside the Minecraft folder.
#[derive(Debug, Clone)]
pub struct Config {
    pub server: String,
    pub data_dir: String,
    /// UI language for the setup/menu console, as a two-letter code
    /// (`en`, `fr`, `es`, `de`, `ru`, `pt`, `it`). Chosen on first run.
    pub language: String,
    /// Microsoft OAuth client id used for the device-code sign-in; `None`
    /// means the Minecraft launcher's public client id.
    pub ms_client_id: Option<String>,
    /// In-game name of the only player allowed to command the bot by whisper.
    /// Empty means nobody may command it by whisper until the mod reports the
    /// player's name.
    pub owner: String,
    pub bridge_port: u16,
    pub reconnect_seconds: u64,
    pub accounts: Vec<AccountConfig>,
}

/// A single bot account.
#[derive(Debug, Clone)]
pub struct AccountConfig {
    /// For Microsoft auth a local cache key for the login; for offline auth
    /// the in-game username.
    pub username: String,
    pub auth: String,
}

} // verus!

verus! {

/// The standard library's path types, carried through opaquely.
#[verifier::external_type_specification]
#[verifier::external_body]
pub struct ExPathBuf(std::path::PathBuf);

#[verifier::external_type_specification]
#[verifier::external_body]
pub struct ExPath(std::path::Path);

/// The path `PathBuf::from` builds from a text.
pub uninterp spec fn path_of_text(s: Seq<char>) -> std::path::PathBuf;

/// The path `Path::join` builds from a directory and a name adjoined to it.
pub uninterp spec fn joined_path(dir: &std::path::Path, name: Seq<char>) -> std::path::PathBuf;

/// `PathBuf::from` a text. What the path holds is named, not spelled out:
/// the same text always gives the same path.
#[verifier::external_body]
fn path_from_text(s: &str) -> (r: std::path::PathBuf)
    ensures
        r == path_of_text(s@),
{
    std::path::PathBuf::from(s)
}

/// `Path::join`: `dir` with `name` adjoined. What the path holds is named,
/// not spelled out: the same directory and name always give the same path.
#[verifier::external_body]
fn join_path(dir: &std::path::Path, name: &str) -> (r: std::path::PathBuf)
    ensures
        r == joined_path(dir, name@),
{
    dir.join(name)
}

/// Whether `Path::is_absolute` holds of a path: a property of the path alone.
pub uninterp spec fn path_is_absolute(p: std::path::PathBuf) -> bool;

/// `Path::is_absolute`. What makes a path absolute is named, not spelled out.
#[verifier::external_body]
fn is_absolute_path(p: &std::path::PathBuf) -> (r: bool)
    ensures
        r == path_is_absolute(*p),
{
    p.is_absolute()
}

/// `std::path::absolute`: the path resolved against the working directory,
/// or `None` where that fails (an empty path, or a working directory that
/// cannot be read). Which directory is used depends on the process, so only
/// that the result is absolute is stated.
#[verifier::external_body]
fn make_absolute(p: &std::path::PathBuf) -> (r: Option<std::path::PathBuf>)
    ensures
        r matches Some(a) ==> path_is_absolute(a),
{
    std::path::absolute(p).ok()
}

/// Default authentication for an account that names none.
pub fn default_auth() -> (r: String)
    ensures
        r@ == "microsoft"@,
{
    String::from_str("microsoft")
}

/// Default folder for the login caches.
pub fn default_data_dir() -> (r: String)
    ensures
        r@ == ".afk"@,
{
    String::from_str(".afk")
}

/// Default console language code.
pub fn default_language() -> (r: String)
    ensures
        r@ == "en"@,
{
    String::from_str("en")
}

/// Default port of the local bridge the mod connects to.
pub fn default_port() -> (r: u16)
    ensures
        r == 8765,
{
    8765
}

/// Default delay before reconnecting after a drop, in seconds.
pub fn default_reconnect() -> (r: u64)
    ensures
        r == 8,
{
    8
}

/// The seven console languages.
#[derive(Debug, Clone, Copy, PartialEq, Eq, Structural)]
pub enum Lang {
    En,
    Fr,
    Es,
    De,
    Ru,
    Pt,
    It,
}

/// The two-letter code of a language.
pub open spec fn lang_code(l: Lang) -> Seq<char> {
    match l {
        Lang::En => "en"@,
        Lang::Fr => "fr"@,
        Lang::Es => "es"@,
        Lang::De => "de"@,
        Lang::Ru => "ru"@,
        Lang::Pt => "pt"@,
        Lang::It => "it"@,
    }
}

/// The language a trimmed, lowercased code names; English for anything else.
pub open spec fn lang_of_folded(s: Seq<char>) -> Lang {
    if s == "fr"@ {
        Lang::Fr
    } else if s == "es"@ {
        Lang::Es
    } else if s == "de"@ {
        Lang::De
    } else if s == "ru"@ {
        Lang::Ru
    } else if s == "pt"@ {
        Lang::Pt
    } else if s == "it"@ {
        Lang::It
    } else {
        Lang::En
    }
}

/// The language a code selects: surrounding whitespace and case are ignored,
/// and an unknown code means English.
pub open spec fn lang_of_code(code: Seq<char>) -> Lang {
    lang_of_folded(unicode_lowercase(trimmed(code)))
}

impl Lang {
    pub fn from_code(code: &str) -> (r: Lang)
        ensures
            r == lang_of_code(code@),
            all_ascii(trimmed(code@)) ==> r == lang_of_folded(ascii_lower_text(trimmed(code@))),
    {
        let t = trim(code);
        let folded = to_lowercase(t.as_str());
        let f = folded.as_str();
        if same_text(f, "fr") {
            Lang::Fr
        } else if same_text(f, "es") {
            Lang::Es
        } else if same_text(f, "de") {
            Lang::De
        } else if same_text(f, "ru") {
            Lang::Ru
        } else if same_text(f, "pt") {
            Lang::Pt
        } else if same_text(f, "it") {
            Lang::It
        } else {
            Lang::En
        }
    }

    pub fn code(self) -> (r: &'static str)
        ensures
            r@ == lang_code(self),
    {
        match self {
            Lang::En => "en",
            Lang::Fr => "fr",
            Lang::Es => "es",
            Lang::De => "de",
            Lang::Ru => "ru",
            Lang::Pt => "pt",
            Lang::It => "it",
        }
    }
}

/// Law: every language's code reads back as that language.
pub proof fn lemma_lang_round_trip(l: Lang)
    ensures
        all_ascii(trimmed(lang_code(l))),
        lang_of_folded(ascii_lower_text(trimmed(lang_code(l)))) == l,
{
    reveal_strlit("en");
    reveal_strlit("fr");
    reveal_strlit("es");
    reveal_strlit("de");
    reveal_strlit("ru");
    reveal_strlit("pt");
    reveal_strlit("it");
    let s = lang_code(l);
    assert(s.len() == 2);
    assert(trimmed(s) =~= s);
    assert(ascii_lower_text(s) =~= s);
}

impl Config {
    /// Absolute path to the per-account login cache directory: `data_dir`
    /// itself when it is absolute, else `data_dir` resolved against the
    /// working directory (kept as written only where that cannot be done).
    pub fn data_path(&self) -> (r: std::path::PathBuf)
        ensures
            path_is_absolute(path_of_text(self.data_dir@)) ==> r == path_of_text(self.data_dir@),
            !path_is_absolute(path_of_text(self.data_dir@)) ==> path_is_absolute(r) || r
                == path_of_text(self.data_dir@),
    {
        let p = path_from_text(self.data_dir.as_str());
        if is_absolute_path(&p) {
            p
        } else {
            match make_absolute(&p) {
                Some(a) => a,
                None => p,
            }
        }
    }

    /// The chosen UI language, falling back to English for an unknown code.
    pub fn lang(&self) -> (r: Lang)
        ensures
            r == lang_of_code(self.language@),
    {
        Lang::from_code(self.language.as_str())
    }

    /// Checks that the configuration can start: at least one account, no
    /// blank username, and no two usernames equal once lowercased. The first
    /// account (in order) with a problem is the one reported.
    pub fn validate(&self) -> (r: Result<(), ConfigError>)
        ensures
            validation_outcome(usernames(self.accounts@), r),
    {
        validate_accounts(&self.accounts)
    }
}

/// What is wrong with a configuration.
#[derive(Debug)]
pub enum ConfigError {
    NoAccounts,
    EmptyUsername,
    DuplicateUsername(String),
}

impl ConfigError {
    /// The message shown to the operator.
    pub fn message(&self) -> (r: String)
        ensures
            r@ == match self {
                ConfigError::NoAccounts => "config has no accounts; add at least one to \"accounts\""@,
                ConfigError::EmptyUsername => "an account has an empty username"@,
                ConfigError::DuplicateUsername(name) => "duplicate account username: "@ + name@,
            },
    {
        match self {
            ConfigError::NoAccounts => String::from_str(
                "config has no accounts; add at least one to \"accounts\"",
            ),
            ConfigError::EmptyUsername => String::from_str("an account has an empty username"),
            ConfigError::DuplicateUsername(name) => {
                let mut m = String::from_str("duplicate account username: ");
                m.append(name.as_str());
                m
            },
        }
    }
}

/// The usernames of a list of accounts.
pub open spec fn usernames(accounts: Seq<AccountConfig>) -> Seq<Seq<char>> {
    accounts.map_values(|a: AccountConfig| a.username@)
}

/// A username that is empty once trimmed.
pub open spec fn blank(s: Seq<char>) -> bool {
    trimmed(s).len() == 0
}

/// The `i`-th username equals an earlier one once both are lowercased.
pub open spec fn repeats_earlier(u: Seq<Seq<char>>, i: int) -> bool {
    exists|j: int| 0 <= j < i && #[trigger] unicode_lowercase(u[j]) == unicode_lowercase(u[i])
}

/// The `i`-th account cannot be used.
pub open spec fn account_problem(u: Seq<Seq<char>>, i: int) -> bool {
    blank(u[i]) || repeats_earlier(u, i)
}

/// The result of validating accounts with usernames `u`.
pub open spec fn validation_outcome(u: Seq<Seq<char>>, r: Result<(), ConfigError>) -> bool {
    match r {
        Ok(()) => u.len() > 0 && forall|i: int| 0 <= i < u.len() ==> !#[trigger] account_problem(u, i),
        Err(ConfigError::NoAccounts) => u.len() == 0,
        Err(ConfigError::EmptyUsername) => exists|i: int|
            0 <= i < u.len() && blank(u[i]) && forall|j: int|
                0 <= j < i ==> !#[trigger] account_problem(u, j),
        Err(ConfigError::DuplicateUsername(name)) => exists|i: int|
            0 <= i < u.len() && !blank(u[i]) && repeats_earlier(u, i) && name@ == u[i] && forall|
                j: int,
            | 0 <= j < i ==> !#[trigger] account_problem(u, j),
    }
}

fn validate_accounts(accounts: &Vec<AccountConfig>) -> (r: Result<(), ConfigError>)
    ensures
        validation_outcome(usernames(accounts@), r),
{
    let ghost u = usernames(accounts@);
    if accounts.len() == 0 {
        return Err(ConfigError::NoAccounts);
    }
    let mut seen: Vec<String> = Vec::new();
    let mut i: usize = 0;
    while i < accounts.len()
        invariant
            u == usernames(accounts@),
            i <= accounts@.len(),
            accounts@.len() > 0,
            seen@.len() == i,
            forall|k: int| 0 <= k < i ==> #[trigger] seen@[k]@ == unicode_lowercase(u[k]),
            forall|j: int| 0 <= j < i ==> !#[trigger] account_problem(u, j),
        decreases accounts@.len() - i,
    {
        let name = accounts[i].username.as_str();
        assert(name@ == u[i as int]);
        let t = trim(name);
        if t.as_str().unicode_len() == 0 {
            return Err(ConfigError::EmptyUsername);
        }
        let lower = to_lowercase(name);
        let mut k: usize = 0;
        while k < seen.len()
            invariant
                k <= seen@.len(),
                seen@.len() == i,
                i < accounts@.len(),
                u == usernames(accounts@),
                !blank(u[i as int]),
                forall|j: int| 0 <= j < i ==> !#[trigger] account_problem(u, j),
                lower@ == unicode_lowercase(u[i as int]),
                forall|q: int| 0 <= q < i ==> #[trigger] seen@[q]@ == unicode_lowercase(u[q]),
                forall|q: int| 0 <= q < k ==> unicode_lowercase(u[q]) != unicode_lowercase(u[i as int]),
            decreases seen@.len() - k,
        {
            if same_text(seen[k].as_str(), lower.as_str()) {
                assert(unicode_lowercase(u[k as int]) == unicode_lowercase(u[i as int]));
                assert(repeats_earlier(u, i as int));
                assert(!blank(u[i as int]));
                return Err(ConfigError::DuplicateUsername(accounts[i].username.clone()));
            }
            k = k + 1;
        }
        seen.push(lower);
        i = i + 1;
    }
    Ok(())
}

/// A file-name-safe character: ASCII letters and digits are kept, anything
/// else becomes `_`.
pub open spec fn file_safe_char(c: char) -> char {
    if is_ascii_alphanumeric(c) {
        c
    } else {
        '_'
    }
}

/// The login cache file name for an account: the name made file-safe, then
/// `.json`.
pub open spec fn cache_file_name_of(account: Seq<char>) -> Seq<char> {
    Seq::new(account.len(), |i: int| file_safe_char(account[i])) + ".json"@
}

/// The login cache file name for an account.
pub fn cache_file_name(account: &str) -> (r: String)
    ensures
        r@ == cache_file_name_of(account@),
{
    let n = account.unicode_len();
    let mut out = String::new();
    let mut i: usize = 0;
    while i < n
        invariant
            n == account@.len(),
            i <= n,
            out@ == Seq::new(i as nat, |k: int| file_safe_char(account@[k])),
        decreases n - i,
    {
        let c = account.get_char(i);
        let safe = if ('0' <= c && c <= '9') || ('a' <= c && c <= 'z') || ('A' <= c && c <= 'Z') {
            c
        } else {
            '_'
        };
        push_char(&mut out, safe);
        i = i + 1;
        assert(out@ =~= Seq::new(i as nat, |k: int| file_safe_char(account@[k])));
    }
    out.append(".json");
    out
}

/// Per-account cache file path inside the data directory.
/// That is the data directory joined with `cache_file_name_of(account)`.
pub fn cache_file(data_dir: &std::path::Path, account: &str) -> (r: std::path::PathBuf)
    ensures
        r == joined_path(data_dir, cache_file_name_of(account@)),
{
    let name = cache_file_name(account);
    join_path(data_dir, name.as_str())
}

/// `account-<n>`: the local cache key of the n-th Microsoft account.
pub open spec fn account_key(n: nat) -> Seq<char> {
    "account-"@ + decimal_digits(n)
}

/// Different numbers have different decimal digits.
proof fn lemma_decimal_digits_injective(a: nat, b: nat)
    requires
        decimal_digits(a) == decimal_digits(b),
    ensures
        a == b,
    decreases a,
{
    let da = decimal_digits(a);
    let db = decimal_digits(b);
    if a < 10 && b < 10 {
        assert(da[0] == db[0]);
    } else if a < 10 {
        assert(db.len() == decimal_digits(b / 10).len() + 1);
        assert(decimal_digits(b / 10).len() >= 1) by {
            lemma_decimal_digits_nonempty((b / 10) as nat);
        }
    } else if b < 10 {
        assert(da.len() == decimal_digits(a / 10).len() + 1);
        assert(decimal_digits(a / 10).len() >= 1) by {
            lemma_decimal_digits_nonempty((a / 10) as nat);
        }
    } else {
        assert(da.drop_last() =~= decimal_digits(a / 10));
        assert(db.drop_last() =~= decimal_digits(b / 10));
        assert(da.last() == db.last());
        assert(a % 10 == b % 10);
        lemma_decimal_digits_injective((a / 10) as nat, (b / 10) as nat);
    }
}

proof fn lemma_decimal_digits_nonempty(n: nat)
    ensures
        decimal_digits(n).len() >= 1,
    decreases n,
{
    if n >= 10 {
        lemma_decimal_digits_nonempty((n / 10) as nat);
    }
}

/// Different numbers give different account keys.
proof fn lemma_account_key_injective(a: nat, b: nat)
    requires
        account_key(a) == account_key(b),
    ensures
        a == b,
{
    let p = "account-"@;
    assert(account_key(a).subrange(p.len() as int, account_key(a).len() as int) =~= decimal_digits(a));
    assert(account_key(b).subrange(p.len() as int, account_key(b).len() as int) =~= decimal_digits(b));
    lemma_decimal_digits_injective(a, b);
}

/// Among `account-1` ..= `account-(n+1)` at least one is not among `n` names.
proof fn lemma_some_key_free(u: Seq<Seq<char>>)
    ensures
        exists|m: int| 1 <= m <= u.len() + 1 && !u.contains(#[trigger] account_key(m as nat)),
{
    if forall|m: int| 1 <= m <= u.len() + 1 ==> u.contains(#[trigger] account_key(m as nat)) {
        let x = set_int_range(1, u.len() as int + 2);
        lemma_int_range(1, u.len() as int + 2);
        let f = |m: int| account_key(m as nat);
        assert(vstd::relations::injective_on(f, x)) by {
            assert forall|a: int, b: int| x.contains(a) && x.contains(b) && #[trigger] f(a) == #[trigger] f(b) implies a == b by {
                lemma_account_key_injective(a as nat, b as nat);
            }
        }
        let y = x.map(f);
        lemma_map_size(x, y, f);
        assert(y.subset_of(u.to_set())) by {
            assert forall|k: Seq<char>| y.contains(k) implies u.to_set().contains(k) by {
                let m = choose|m: int| x.contains(m) && f(m) == k;
                assert(u.contains(account_key(m as nat)));
            }
        }
        u.lemma_cardinality_of_set();
        lemma_len_subset(y, u.to_set());
        assert(false);
    }
}

/// The usernames lower-cased, as `validate` compares them.
pub open spec fn folded_usernames(accounts: Seq<AccountConfig>) -> Seq<Seq<char>> {
    usernames(accounts).map_values(|u: Seq<char>| unicode_lowercase(u))
}

/// A stable, unused local key (`account-1`, `account-2`, ...) for a new
/// Microsoft account's token cache: the first one that no account uses yet,
/// comparing lower-cased names as `validate` does (so `Account-1` takes
/// `account-1`).
pub fn next_microsoft_key(config: &Config) -> (r: String)
    requires
        config.accounts@.len() < i32::MAX,
    ensures
        exists|n: nat|
            n >= 1 && r@ == account_key(n) && !folded_usernames(config.accounts@).contains(
                account_key(n),
            ) && forall|m: nat|
                1 <= m < n ==> folded_usernames(config.accounts@).contains(#[trigger] account_key(m)),
{
    let ghost u = folded_usernames(config.accounts@);
    proof {
        lemma_some_key_free(u);
    }
    let len = config.accounts.len() as u64;
    let mut n: u64 = 1;
    while n <= len
        invariant
            1 <= n <= len + 1,
            len == config.accounts@.len(),
            len < i32::MAX,
            u == folded_usernames(config.accounts@),
            forall|m: nat| 1 <= m < n ==> u.contains(#[trigger] account_key(m)),
        decreases len + 1 - n,
    {
        let key = account_key_text(n);
        if !key_in_use(config, key.as_str()) {
            return key;
        }
        n = n + 1;
    }
    let key = account_key_text(n);
    proof {
        assert(n == u.len() + 1);
        if u.contains(account_key(n as nat)) {
            assert forall|m: int| 1 <= m <= u.len() + 1 implies u.contains(#[trigger] account_key(m as nat)) by {
                if m < n {
                    assert(u.contains(account_key(m as nat)));
                }
            }
        }
    }
    key
}

/// The text `account-<n>`.
fn account_key_text(n: u64) -> (r: String)
    ensures
        r@ == account_key(n as nat),
{
    let mut key = String::from_str("account-");
    push_decimal_digits(&mut key, n);
    key
}

/// Whether some account's username, lower-cased, is `key`.
fn key_in_use(config: &Config, key: &str) -> (r: bool)
    ensures
        r == folded_usernames(config.accounts@).contains(key@),
{
    let ghost u = folded_usernames(config.accounts@);
    let mut i: usize = 0;
    while i < config.accounts.len()
        invariant
            i <= config.accounts@.len(),
            u == folded_usernames(config.accounts@),
            forall|k: int| 0 <= k < i ==> u[k] != key@,
        decreases config.accounts@.len() - i,
    {
        assert(u[i as int] == unicode_lowercase(config.accounts@[i as int].username@));
        let folded = to_lowercase(config.accounts[i].username.as_str());
        if same_text(folded.as_str(), key) {
            assert(u.contains(key@));
            return true;
        }
        i = i + 1;
    }
    false
}

/// Every piece of localized text the console shows, one value per language.
pub struct Strings {
    pub setup_title: &'static str,
    pub intro: &'static str,
    pub auth: &'static str,
    pub ms_note: &'static str,
    pub name: &'static str,
    pub ip: &'static str,
    pub port: &'static str,
    pub empty: &'static str,
    pub saved: &'static str,
    pub accounts_title: &'static str,
    pub server: &'static str,
    pub accounts: &'static str,
    pub menu: &'static str,
    pub start_one: &'static str,
    pub no_number: &'static str,
    pub ask_number: &'static str,
    pub logged_out: &'static str,
    pub no_cache: &'static str,
}

/// The texts of a `Strings`.
pub struct StringsView {
    pub setup_title: Seq<char>,
    pub intro: Seq<char>,
    pub auth: Seq<char>,
    pub ms_note: Seq<char>,
    pub name: Seq<char>,
    pub ip: Seq<char>,
    pub port: Seq<char>,
    pub empty: Seq<char>,
    pub saved: Seq<char>,
    pub accounts_title: Seq<char>,
    pub server: Seq<char>,
    pub accounts: Seq<char>,
    pub menu: Seq<char>,
    pub start_one: Seq<char>,
    pub no_number: Seq<char>,
    pub ask_number: Seq<char>,
    pub logged_out: Seq<char>,
    pub no_cache: Seq<char>,
}

impl View for Strings {
    type V = StringsView;

    open spec fn view(&self) -> StringsView {
        StringsView {
            setup_title: self.setup_title@,
            intro: self.intro@,
            auth: self.auth@,
            ms_note: self.ms_note@,
            name: self.name@,
            ip: self.ip@,
            port: self.port@,
            empty: self.empty@,
            saved: self.saved@,
            accounts_title: self.accounts_title@,
            server: self.server@,
            accounts: self.accounts@,
            menu: self.menu@,
            start_one: self.start_one@,
            no_number: self.no_number@,
            ask_number: self.ask_number@,
            logged_out: self.logged_out@,
            no_cache: self.no_cache@,
        }
    }
}

/// The console texts of each language.
pub open spec fn localized(lang: Lang) -> StringsView {
    match lang {
        Lang::En => StringsView {
            setup_title: "First-time setup"@,
            intro: "Press Enter to accept the [default] in brackets."@,
            auth: "Account type? [1] Microsoft (default)  [2] Cracked/offline:"@,
            ms_note: "Microsoft: you'll sign in at startup with the link and code shown. Nothing to type here."@,
            name: "Bot username:"@,
            ip: "Server IP [127.0.0.1]:"@,
            port: "Server port [25565]:"@,
            empty: "This cannot be empty, please type a value."@,
            saved: "Configuration saved."@,
            accounts_title: "Accounts"@,
            server: "Server"@,
            accounts: "Accounts"@,
            menu: "Action: [Enter] start all · [number] start one · [a] add · [r] remove · [l] log out · [q] quit:"@,
            start_one: "Starting only"@,
            no_number: "No account with that number."@,
            ask_number: "Account number:"@,
            logged_out: "Logged out. It will sign in again on the next start:"@,
            no_cache: "No cached login for:"@,
        },
        Lang::Fr => StringsView {
            setup_title: "Configuration initiale"@,
            intro: "Appuie sur Entrée pour garder la valeur [par défaut] entre crochets."@,
            auth: "Type de compte ? [1] Microsoft (défaut)  [2] Cracké/hors-ligne :"@,
            ms_note: "Microsoft : tu te connecteras au démarrage avec le lien et le code affichés. Rien à taper ici."@,
            name: "Nom du bot :"@,
            ip: "IP du serveur [127.0.0.1] :"@,
            port: "Port du serveur [25565] :"@,
            empty: "Ce champ ne peut pas être vide, entre une valeur."@,
            saved: "Configuration enregistrée."@,
            accounts_title: "Comptes"@,
            server: "Serveur"@,
            accounts: "Comptes"@,
            menu: "Action : [Entrée] tout démarrer · [numéro] démarrer un · [a] ajouter · [r] retirer · [l] déconnecter · [q] quitter :"@,
            start_one: "Démarrage uniquement de"@,
            no_number: "Aucun compte avec ce numéro."@,
            ask_number: "Numéro du compte :"@,
            logged_out: "Déconnecté. Il se reconnectera au prochain démarrage :"@,
            no_cache: "Aucune connexion en cache pour :"@,
        },
        Lang::Es => StringsView {
            setup_title: "Configuración inicial"@,
            intro: "Pulsa Enter para aceptar el valor [predeterminado] entre corchetes."@,
            auth: "¿Tipo de cuenta? [1] Microsoft (predeterminado)  [2] Cracked/sin conexión:"@,
            ms_note: "Microsoft: iniciarás sesión al arrancar con el enlace y el código mostrados. Nada que escribir aquí."@,
            name: "Nombre del bot:"@,
            ip: "IP del servidor [127.0.0.1]:"@,
            port: "Puerto del servidor [25565]:"@,
            empty: "Esto no puede estar vacío, escribe un valor."@,
            saved: "Configuración guardada."@,
            accounts_title: "Cuentas"@,
            server: "Servidor"@,
            accounts: "Cuentas"@,
            menu: "Acción: [Enter] iniciar todas · [número] iniciar una · [a] añadir · [r] quitar · [l] cerrar sesión · [q] salir:"@,
            start_one: "Iniciando solo"@,
            no_number: "No hay ninguna cuenta con ese número."@,
            ask_number: "Número de cuenta:"@,
            logged_out: "Sesión cerrada. Volverá a iniciar sesión en el próximo arranque:"@,
            no_cache: "No hay sesión en caché para:"@,
        },
        Lang::De => StringsView {
            setup_title: "Ersteinrichtung"@,
            intro: "Drücke Enter, um den [Standard] in Klammern zu übernehmen."@,
            auth: "Kontotyp? [1] Microsoft (Standard)  [2] Cracked/Offline:"@,
            ms_note: "Microsoft: Du meldest dich beim Start mit dem angezeigten Link und Code an. Hier nichts einzugeben."@,
            name: "Bot-Name:"@,
            ip: "Server-IP [127.0.0.1]:"@,
            port: "Server-Port [25565]:"@,
            empty: "Dies darf nicht leer sein, bitte einen Wert eingeben."@,
            saved: "Konfiguration gespeichert."@,
            accounts_title: "Konten"@,
            server: "Server"@,
            accounts: "Konten"@,
            menu: "Aktion: [Enter] alle starten · [Nummer] eines starten · [a] hinzufügen · [r] entfernen · [l] abmelden · [q] beenden:"@,
            start_one: "Starte nur"@,
            no_number: "Kein Konto mit dieser Nummer."@,
            ask_number: "Kontonummer:"@,
            logged_out: "Abgemeldet. Meldet sich beim nächsten Start erneut an:"@,
            no_cache: "Keine gespeicherte Anmeldung für:"@,
        },
        Lang::Ru => StringsView {
            setup_title: "Первоначальная настройка"@,
            intro: "Нажми Enter, чтобы оставить значение [по умолчанию] в скобках."@,
            auth: "Тип аккаунта? [1] Microsoft (по умолчанию)  [2] Cracked/офлайн:"@,
            ms_note: "Microsoft: вход выполнится при запуске по показанным ссылке и коду. Здесь ничего вводить не нужно."@,
            name: "Имя бота:"@,
            ip: "IP сервера [127.0.0.1]:"@,
            port: "Порт сервера [25565]:"@,
            empty: "Поле не может быть пустым, введи значение."@,
            saved: "Конфигурация сохранена."@,
            accounts_title: "Аккаунты"@,
            server: "Сервер"@,
            accounts: "Аккаунты"@,
            menu: "Действие: [Enter] запустить все · [номер] запустить один · [a] добавить · [r] удалить · [l] выйти · [q] выход:"@,
            start_one: "Запуск только"@,
            no_number: "Нет аккаунта с таким номером."@,
            ask_number: "Номер аккаунта:"@,
            logged_out: "Выполнен выход. Войдёт снова при следующем запуске:"@,
            no_cache: "Нет сохранённого входа для:"@,
        },
        Lang::Pt => StringsView {
            setup_title: "Configuração inicial"@,
            intro: "Pressione Enter para aceitar o valor [padrão] entre colchetes."@,
            auth: "Tipo de conta? [1] Microsoft (padrão)  [2] Cracked/offline:"@,
            ms_note: "Microsoft: você fará login ao iniciar com o link e o código mostrados. Nada para digitar aqui."@,
            name: "Nome do bot:"@,
            ip: "IP do servidor [127.0.0.1]:"@,
            port: "Porta do servidor [25565]:"@,
            empty: "Isto não pode ficar vazio, digite um valor."@,
            saved: "Configuração salva."@,
            accounts_title: "Contas"@,
            server: "Servidor"@,
            accounts: "Contas"@,
            menu: "Ação: [Enter] iniciar todas · [número] iniciar uma · [a] adicionar · [r] remover · [l] sair · [q] encerrar:"@,
            start_one: "Iniciando apenas"@,
            no_number: "Nenhuma conta com esse número."@,
            ask_number: "Número da conta:"@,
            logged_out: "Sessão encerrada. Entrará novamente no próximo início:"@,
            no_cache: "Nenhum login em cache para:"@,
        },
        Lang::It => StringsView {
            setup_title: "Configurazione iniziale"@,
            intro: "Premi Invio per accettare il valore [predefinito] tra parentesi."@,
            auth: "Tipo di account? [1] Microsoft (predefinito)  [2] Cracked/offline:"@,
            ms_note: "Microsoft: accederai all'avvio con il link e il codice mostrati. Niente da digitare qui."@,
            name: "Nome del bot:"@,
            ip: "IP del server [127.0.0.1]:"@,
            port: "Porta del server [25565]:"@,
            empty: "Questo campo non può essere vuoto, inserisci un valore."@,
            saved: "Configurazione salvata."@,
            accounts_title: "Account"@,
            server: "Server"@,
            accounts: "Account"@,
            menu: "Azione: [Invio] avvia tutti · [numero] avviane uno · [a] aggiungi · [r] rimuovi · [l] disconnetti · [q] esci:"@,
            start_one: "Avvio solo di"@,
            no_number: "Nessun account con quel numero."@,
            ask_number: "Numero account:"@,
            logged_out: "Disconnesso. Effettuerà di nuovo l'accesso al prossimo avvio:"@,
            no_cache: "Nessun accesso in cache per:"@,
        },
    }
}

/// The console texts in `lang`.
pub fn strings(lang: Lang) -> (r: Strings)
    ensures
        r@ == localized(lang),
{
    match lang {
        Lang::En => Strings {
            setup_title: "First-time setup",
            intro: "Press Enter to accept the [default] in brackets.",
            auth: "Account type? [1] Microsoft (default)  [2] Cracked/offline:",
            ms_note: "Microsoft: you'll sign in at startup with the link and code shown. Nothing to type here.",
            name: "Bot username:",
            ip: "Server IP [127.0.0.1]:",
            port: "Server port [25565]:",
            empty: "This cannot be empty, please type a value.",
            saved: "Configuration saved.",
            accounts_title: "Accounts",
            server: "Server",
            accounts: "Accounts",
            menu: "Action: [Enter] start all · [number] start one · [a] add · [r] remove · [l] log out · [q] quit:",
            start_one: "Starting only",
            no_number: "No account with that number.",
            ask_number: "Account number:",
            logged_out: "Logged out. It will sign in again on the next start:",
            no_cache: "No cached login for:",
        },
        Lang::Fr => Strings {
            setup_title: "Configuration initiale",
            intro: "Appuie sur Entrée pour garder la valeur [par défaut] entre crochets.",
            auth: "Type de compte ? [1] Microsoft (défaut)  [2] Cracké/hors-ligne :",
            ms_note: "Microsoft : tu te connecteras au démarrage avec le lien et le code affichés. Rien à taper ici.",
            name: "Nom du bot :",
            ip: "IP du serveur [127.0.0.1] :",
            port: "Port du serveur [25565] :",
            empty: "Ce champ ne peut pas être vide, entre une valeur.",
            saved: "Configuration enregistrée.",
            accounts_title: "Comptes",
            server: "Serveur",
            accounts: "Comptes",
            menu: "Action : [Entrée] tout démarrer · [numéro] démarrer un · [a] ajouter · [r] retirer · [l] déconnecter · [q] quitter :",
            start_one: "Démarrage uniquement de",
            no_number: "Aucun compte avec ce numéro.",
            ask_number: "Numéro du compte :",
            logged_out: "Déconnecté. Il se reconnectera au prochain démarrage :",
            no_cache: "Aucune connexion en cache pour :",
        },
        Lang::Es => Strings {
            setup_title: "Configuración inicial",
            intro: "Pulsa Enter para aceptar el valor [predeterminado] entre corchetes.",
            auth: "¿Tipo de cuenta? [1] Microsoft (predeterminado)  [2] Cracked/sin conexión:",
            ms_note: "Microsoft: iniciarás sesión al arrancar con el enlace y el código mostrados. Nada que escribir aquí.",
            name: "Nombre del bot:",
            ip: "IP del servidor [127.0.0.1]:",
            port: "Puerto del servidor [25565]:",
            empty: "Esto no puede estar vacío, escribe un valor.",
            saved: "Configuración guardada.",
            accounts_title: "Cuentas",
            server: "Servidor",
            accounts: "Cuentas",
            menu: "Acción: [Enter] iniciar todas · [número] iniciar una · [a] añadir · [r] quitar · [l] cerrar sesión · [q] salir:",
            start_one: "Iniciando solo",
            no_number: "No hay ninguna cuenta con ese número.",
            ask_number: "Número de cuenta:",
            logged_out: "Sesión cerrada. Volverá a iniciar sesión en el próximo arranque:",
            no_cache: "No hay sesión en caché para:",
        },
        Lang::De => Strings {
            setup_title: "Ersteinrichtung",
            intro: "Drücke Enter, um den [Standard] in Klammern zu übernehmen.",
            auth: "Kontotyp? [1] Microsoft (Standard)  [2] Cracked/Offline:",
            ms_note: "Microsoft: Du meldest dich beim Start mit dem angezeigten Link und Code an. Hier nichts einzugeben.",
            name: "Bot-Name:",
            ip: "Server-IP [127.0.0.1]:",
            port: "Server-Port [25565]:",
            empty: "Dies darf nicht leer sein, bitte einen Wert eingeben.",
            saved: "Konfiguration gespeichert.",
            accounts_title: "Konten",
            server: "Server",
            accounts: "Konten",
            menu: "Aktion: [Enter] alle starten · [Nummer] eines starten · [a] hinzufügen · [r] entfernen · [l] abmelden · [q] beenden:",
            start_one: "Starte nur",
            no_number: "Kein Konto mit dieser Nummer.",
            ask_number: "Kontonummer:",
            logged_out: "Abgemeldet. Meldet sich beim nächsten Start erneut an:",
            no_cache: "Keine gespeicherte Anmeldung für:",
        },
        Lang::Ru => Strings {
            setup_title: "Первоначальная настройка",
            intro: "Нажми Enter, чтобы оставить значение [по умолчанию] в скобках.",
            auth: "Тип аккаунта? [1] Microsoft (по умолчанию)  [2] Cracked/офлайн:",
            ms_note: "Microsoft: вход выполнится при запуске по показанным ссылке и коду. Здесь ничего вводить не нужно.",
            name: "Имя бота:",
            ip: "IP сервера [127.0.0.1]:",
            port: "Порт сервера [25565]:",
            empty: "Поле не может быть пустым, введи значение.",
            saved: "Конфигурация сохранена.",
            accounts_title: "Аккаунты",
            server: "Сервер",
            accounts: "Аккаунты",
            menu: "Действие: [Enter] запустить все · [номер] запустить один · [a] добавить · [r] удалить · [l] выйти · [q] выход:",
            start_one: "Запуск только",
            no_number: "Нет аккаунта с таким номером.",
            ask_number: "Номер аккаунта:",
            logged_out: "Выполнен выход. Войдёт снова при следующем запуске:",
            no_cache: "Нет сохранённого входа для:",
        },
        Lang::Pt => Strings {
            setup_title: "Configuração inicial",
            intro: "Pressione Enter para aceitar o valor [padrão] entre colchetes.",
            auth: "Tipo de conta? [1] Microsoft (padrão)  [2] Cracked/offline:",
            ms_note: "Microsoft: você fará login ao iniciar com o link e o código mostrados. Nada para digitar aqui.",
            name: "Nome do bot:",
            ip: "IP do servidor [127.0.0.1]:",
            port: "Porta do servidor [25565]:",
            empty: "Isto não pode ficar vazio, digite um valor.",
            saved: "Configuração salva.",
            accounts_title: "Contas",
            server: "Servidor",
            accounts: "Contas",
            menu: "Ação: [Enter] iniciar todas · [número] iniciar uma · [a] adicionar · [r] remover · [l] sair · [q] encerrar:",
            start_one: "Iniciando apenas",
            no_number: "Nenhuma conta com esse número.",
            ask_number: "Número da conta:",
            logged_out: "Sessão encerrada. Entrará novamente no próximo início:",
            no_cache: "Nenhum login em cache para:",
        },
        Lang::It => Strings {
            setup_title: "Configurazione iniziale",
            intro: "Premi Invio per accettare il valore [predefinito] tra parentesi.",
            auth: "Tipo di account? [1] Microsoft (predefinito)  [2] Cracked/offline:",
            ms_note: "Microsoft: accederai all'avvio con il link e il codice mostrati. Niente da digitare qui.",
            name: "Nome del bot:",
            ip: "IP del server [127.0.0.1]:",
            port: "Porta del server [25565]:",
            empty: "Questo campo non può essere vuoto, inserisci un valore.",
            saved: "Configurazione salvata.",
            accounts_title: "Account",
            server: "Server",
            accounts: "Account",
            menu: "Azione: [Invio] avvia tutti · [numero] avviane uno · [a] aggiungi · [r] rimuovi · [l] disconnetti · [q] esci:",
            start_one: "Avvio solo di",
            no_number: "Nessun account con quel numero.",
            ask_number: "Numero account:",
            logged_out: "Disconnesso. Effettuerà di nuovo l'accesso al prossimo avvio:",
            no_cache: "Nessun accesso in cache per:",
        },
    }
}

} // verus!

verus! {

/// The answer to a question with a default: the default when the answer is
/// empty.
pub open spec fn answer_or(value: Seq<char>, fallback: Seq<char>) -> Seq<char> {
    if value.len() == 0 {
        fallback
    } else {
        value
    }
}

/// The answer to a question with a default, `fallback` when nothing was typed.
pub fn answer_or_default(value: String, fallback: &str) -> (r: String)
    ensures
        r@ == answer_or(value@, fallback@),
{
    if value.as_str().unicode_len() == 0 {
        String::from_str(fallback)
    } else {
        value
    }
}

/// Whether an answer to a required question is refused: it is empty once
/// trimmed, which would save an account with no username.
pub fn is_blank_answer(value: &str) -> (r: bool)
    ensures
        r == blank(value@),
{
    let t = trim(value);
    t.as_str().unicode_len() == 0
}

/// Whether the answer to the authentication question picks offline play:
/// `2`, `cracked` or `offline`; anything else picks Microsoft.
pub open spec fn picks_offline(answer: Seq<char>) -> bool {
    answer == "2"@ || answer == "cracked"@ || answer == "offline"@
}

/// Whether the answer to the authentication question picks offline play.
pub fn picks_offline_auth(answer: &str) -> (r: bool)
    ensures
        r == picks_offline(answer@),
{
    same_text(answer, "2") || same_text(answer, "cracked") || same_text(answer, "offline")
}

/// A Microsoft account: nothing is asked, you are identified by signing in to
/// Microsoft at startup, so only a stable local key for the token cache is kept.
pub fn microsoft_account_config(key: &str) -> (r: AccountConfig)
    ensures
        r.username@ == key@,
        r.auth@ == "microsoft"@,
{
    AccountConfig { username: String::from_str(key), auth: String::from_str("microsoft") }
}

/// An offline account, identified by its in-game name.
pub fn offline_account_config(name: String) -> (r: AccountConfig)
    ensures
        r.username@ == name@,
        r.auth@ == "offline"@,
{
    AccountConfig { username: name, auth: String::from_str("offline") }
}

/// Whether an account logs in offline: its auth, lower-cased, is `offline` or
/// `cracked`; any other auth signs in with Microsoft.
pub fn uses_offline_auth(auth: &str) -> (r: bool)
    ensures
        r == (unicode_lowercase(auth@) == "offline"@ || unicode_lowercase(auth@) == "cracked"@),
{
    let lc = to_lowercase(auth);
    same_text(lc.as_str(), "offline") || same_text(lc.as_str(), "cracked")
}

/// The server address: the IP alone on the default port 25565, `ip:port`
/// otherwise.
pub open spec fn server_address(ip: Seq<char>, port: Seq<char>) -> Seq<char> {
    if port == "25565"@ {
        ip
    } else {
        ip + ":"@ + port
    }
}

/// The server address for an IP and a port, as `server_address` says.
pub fn server_text(ip: &str, port: &str) -> (r: String)
    ensures
        r@ == server_address(ip@, port@),
{
    if same_text(port, "25565") {
        String::from_str(ip)
    } else {
        String::from_str(ip).concat(":").concat(port)
    }
}

/// The configuration first-time setup saves: the chosen language and server,
/// one account, the default data folder, bridge port 8765, reconnection after
/// 8 seconds, and no owner (the mod reports your in-game name by itself).
pub fn setup_config(lang: Lang, account: AccountConfig, ip: &str, port: &str) -> (r: Config)
    ensures
        r.server@ == server_address(ip@, port@),
        r.data_dir@ == ".afk"@,
        r.language@ == lang_code(lang),
        r.ms_client_id is None,
        r.owner@ == Seq::<char>::empty(),
        r.bridge_port == 8765,
        r.reconnect_seconds == 8,
        r.accounts@ == seq![account],
{
    let server = server_text(ip, port);
    let mut accounts: Vec<AccountConfig> = Vec::new();
    accounts.push(account);
    Config {
        server,
        data_dir: default_data_dir(),
        language: String::from_str(lang.code()),
        ms_client_id: None,
        owner: String::new(),
        bridge_port: 8765,
        reconnect_seconds: 8,
        accounts,
    }
}

/// What the account menu does with an answer.
#[derive(Debug, Clone, Copy, PartialEq, Eq, Structural)]
pub enum MenuAction {
    /// Start every account (an empty answer).
    StartAll,
    /// Start only this account (a valid number, counted from 1; the others
    /// stay in the file).
    StartOne(usize),
    /// A number that names no account.
    NoSuchNumber,
    /// `a`: add an account.
    Add,
    /// `r`: remove an account.
    Remove,
    /// `l`: log an account out (forget its cached token).
    LogOut,
    /// `s`: change the server.
    ChangeServer,
    /// `g`: change the language.
    ChangeLanguage,
    /// `q`: quit.
    Quit,
    /// Anything else: show the menu again.
    Stay,
}

/// The account a number (counted from 1) names among `count` accounts, as an
/// index; a text that is no `usize` or a number out of range names none.
pub open spec fn account_index(raw: Seq<char>, count: nat) -> Option<usize> {
    match parse_unsigned(raw, usize::MAX as nat) {
        Some(n) => if 1 <= n <= count {
            Some((n - 1) as usize)
        } else {
            None
        },
        None => None,
    }
}

/// What the account menu does with a lower-cased answer, with `count`
/// accounts configured.
pub open spec fn menu_action_of(lc: Seq<char>, count: nat) -> MenuAction {
    match parse_unsigned(lc, usize::MAX as nat) {
        Some(n) => if 1 <= n <= count {
            MenuAction::StartOne((n - 1) as usize)
        } else {
            MenuAction::NoSuchNumber
        },
        None => if lc.len() == 0 {
            MenuAction::StartAll
        } else if lc == "a"@ {
            MenuAction::Add
        } else if lc == "r"@ {
            MenuAction::Remove
        } else if lc == "l"@ {
            MenuAction::LogOut
        } else if lc == "s"@ {
            MenuAction::ChangeServer
        } else if lc == "g"@ {
            MenuAction::ChangeLanguage
        } else if lc == "q"@ {
            MenuAction::Quit
        } else {
            MenuAction::Stay
        },
    }
}

/// What the account menu does with an already lower-cased answer.
pub fn menu_action_for(lc: &str, count: usize) -> (r: MenuAction)
    ensures
        r == menu_action_of(lc@, count as nat),
{
    match parse_unsigned_text(lc, usize::MAX as u64) {
        Some(n) => if 1 <= n && n <= count as u64 {
            MenuAction::StartOne((n - 1) as usize)
        } else {
            MenuAction::NoSuchNumber
        },
        None => if lc.unicode_len() == 0 {
            MenuAction::StartAll
        } else if same_text(lc, "a") {
            MenuAction::Add
        } else if same_text(lc, "r") {
            MenuAction::Remove
        } else if same_text(lc, "l") {
            MenuAction::LogOut
        } else if same_text(lc, "s") {
            MenuAction::ChangeServer
        } else if same_text(lc, "g") {
            MenuAction::ChangeLanguage
        } else if same_text(lc, "q") {
            MenuAction::Quit
        } else {
            MenuAction::Stay
        },
    }
}

/// What the account menu does with an answer: the answer is lower-cased
/// first.
pub fn menu_action(answer: &str, count: usize) -> (r: MenuAction)
    ensures
        r == menu_action_of(unicode_lowercase(answer@), count as nat),
{
    let lc = to_lowercase(answer);
    menu_action_for(lc.as_str(), count)
}

/// The account an answer to "which number?" picks, as an index.
pub fn pick_account(answer: &str, config: &Config) -> (r: Option<usize>)
    ensures
        r == account_index(answer@, config.accounts@.len()),
{
    match parse_unsigned_text(answer, usize::MAX as u64) {
        Some(n) => if 1 <= n && n <= config.accounts.len() as u64 {
            Some((n - 1) as usize)
        } else {
            None
        },
        None => None,
    }
}

impl Config {
    /// Keep only the account at `index` (starting one account).
    pub fn keep_only(&mut self, index: usize)
        requires
            index < old(self).accounts@.len(),
        ensures
            final(self).accounts@ == seq![old(self).accounts@[index as int]],
            final(self).server == old(self).server,
            final(self).data_dir == old(self).data_dir,
            final(self).language == old(self).language,
            final(self).owner == old(self).owner,
            final(self).bridge_port == old(self).bridge_port,
            final(self).reconnect_seconds == old(self).reconnect_seconds,
            final(self).ms_client_id == old(self).ms_client_id,
    {
        let chosen = self.accounts.remove(index);
        let mut kept: Vec<AccountConfig> = Vec::new();
        kept.push(chosen);
        self.accounts = kept;
    }

    /// Remove the account at `index`, returning it.
    pub fn remove_account(&mut self, index: usize) -> (r: AccountConfig)
        requires
            index < old(self).accounts@.len(),
        ensures
            r == old(self).accounts@[index as int],
            final(self).accounts@ == old(self).accounts@.remove(index as int),
            final(self).server == old(self).server,
            final(self).data_dir == old(self).data_dir,
            final(self).language == old(self).language,
            final(self).owner == old(self).owner,
            final(self).bridge_port == old(self).bridge_port,
            final(self).reconnect_seconds == old(self).reconnect_seconds,
            final(self).ms_client_id == old(self).ms_client_id,
    {
        self.accounts.remove(index)
    }

    /// Point the configuration at another server (the account menu's `s`).
    pub fn set_server(&mut self, ip: &str, port: &str)
        ensures
            final(self).server@ == server_address(ip@, port@),
            final(self).accounts@ == old(self).accounts@,
            final(self).data_dir == old(self).data_dir,
            final(self).language == old(self).language,
            final(self).owner == old(self).owner,
            final(self).bridge_port == old(self).bridge_port,
            final(self).reconnect_seconds == old(self).reconnect_seconds,
            final(self).ms_client_id == old(self).ms_client_id,
    {
        self.server = server_text(ip, port);
    }

    /// Switch the console language (the account menu's `g`); the language is
    /// saved as its two-letter code.
    pub fn set_language(&mut self, lang: Lang)
        ensures
            final(self).language@ == lang_code(lang),
            final(self).server == old(self).server,
            final(self).accounts@ == old(self).accounts@,
            final(self).data_dir == old(self).data_dir,
            final(self).owner == old(self).owner,
            final(self).bridge_port == old(self).bridge_port,
            final(self).reconnect_seconds == old(self).reconnect_seconds,
            final(self).ms_client_id == old(self).ms_client_id,
    {
        self.language = String::from_str(lang.code());
    }

    /// Add an account at the end.
    pub fn add_account(&mut self, account: AccountConfig)
        ensures
            final(self).accounts@ == old(self).accounts@.push(account),
            final(self).server == old(self).server,
            final(self).data_dir == old(self).data_dir,
            final(self).language == old(self).language,
            final(self).owner == old(self).owner,
            final(self).bridge_port == old(self).bridge_port,
            final(self).reconnect_seconds == old(self).reconnect_seconds,
            final(self).ms_client_id == old(self).ms_client_id,
    {
        self.accounts.push(account);
    }
}

/// `  [<n>] <username> (<auth>)`: one account of the menu, numbered from 1.
pub open spec fn account_line(n: nat, a: AccountConfig) -> Seq<char> {
    "  ["@ + decimal_digits(n) + "] "@ + a.username@ + " ("@ + a.auth@ + ")"@
}

/// The lines the account menu shows before its question: the server, a
/// heading, then each account numbered from 1.
pub open spec fn menu_lines(config: Config, t: StringsView) -> Seq<Seq<char>> {
    seq![t.server + ": "@ + config.server@, t.accounts + ":"@] + Seq::new(
        config.accounts@.len(),
        |i: int| account_line((i + 1) as nat, config.accounts@[i]),
    )
}

/// The lines the account menu shows before its question.
pub fn account_menu_lines(config: &Config, t: &Strings) -> (r: Vec<String>)
    requires
        config.accounts@.len() < u64::MAX,
    ensures
        r@.map_values(|s: String| s@) == menu_lines(*config, t@),
{
    let mut out: Vec<String> = Vec::new();
    out.push(String::from_str(t.server).concat(": ").concat(config.server.as_str()));
    out.push(String::from_str(t.accounts).concat(":"));
    let mut i: usize = 0;
    while i < config.accounts.len()
        invariant
            i <= config.accounts@.len(),
            config.accounts@.len() < u64::MAX,
            out@.len() == i + 2,
            out@[0]@ == t@.server + ": "@ + config.server@,
            out@[1]@ == t@.accounts + ":"@,
            forall|k: int|
                0 <= k < i ==> out@[k + 2]@ == account_line((k + 1) as nat, config.accounts@[k]),
        decreases config.accounts@.len() - i,
    {
        let a = &config.accounts[i];
        let mut line = String::from_str("  [");
        push_decimal_digits(&mut line, (i + 1) as u64);
        let line = line.concat("] ").concat(a.username.as_str()).concat(" (").concat(
            a.auth.as_str(),
        ).concat(")");
        out.push(line);
        i = i + 1;
    }
    assert(out@.map_values(|s: String| s@) =~= menu_lines(*config, t@));
    out
}

/// `<start_one> <username>.`: the account menu starts one account.
pub fn start_one_message(t: &Strings, username: &str) -> (r: String)
    ensures
        r@ == t@.start_one + " "@ + username@ + "."@,
{
    String::from_str(t.start_one).concat(" ").concat(username).concat(".")
}

/// After logging an account out: `<logged_out> <username>` when its cached
/// token was removed, `<no_cache> <username>` when there was none.
pub fn logout_message(t: &Strings, username: &str, removed: bool) -> (r: String)
    ensures
        r@ == (if removed {
            t@.logged_out
        } else {
            t@.no_cache
        }) + " "@ + username@,
{
    let head = if removed {
        t.logged_out
    } else {
        t.no_cache
    };
    String::from_str(head).concat(" ").concat(username)
}

/// The Minecraft launcher's public client id, used for the Microsoft
/// device-code sign-in unless the configuration names another.
pub const LAUNCHER_CLIENT_ID: &'static str = "00000000402b5328";

/// The client id for the Microsoft sign-in: the configured one, otherwise the
/// launcher's public id.
pub fn sign_in_client_id<'a>(configured: Option<&'a str>) -> (r: &'a str)
    ensures
        r@ == match configured {
            Some(id) => id@,
            None => LAUNCHER_CLIENT_ID@,
        },
{
    match configured {
        Some(id) => id,
        None => LAUNCHER_CLIENT_ID,
    }
}

} // verus!
