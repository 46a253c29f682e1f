//! Oracle Cloud API-key authentication: errors, the configuration provider
//! interface, and reading a profile of an OCI INI configuration.

use vstd::prelude::*;
use crate::text::{
    ascii_without_upper, casefold, concat2, concat3, copy_opt_string, opt_view, str_chars,
    str_starts_with, string_of, sub_chars,
};
use configparser::ini::Ini;

verus! {

/// Declares `std::io::Error` so that an error can carry it.
#[verifier::external_type_specification]
#[verifier::external_body]
pub struct ExIoError(std::io::Error);

/// Authentication and configuration errors.
#[derive(Debug)]
pub enum AuthError {
    ConfigNotFound(String),
    InvalidConfig(String),
    IoError(std::io::Error),
    CryptoError(String),
}

/// Abstract value of an [`AuthError`] (the I/O error is kept opaque).
pub enum AuthErrorView {
    ConfigNotFound(Seq<char>),
    InvalidConfig(Seq<char>),
    Io,
    Crypto(Seq<char>),
}

impl View for AuthError {
    type V = AuthErrorView;

    open spec fn view(&self) -> AuthErrorView {
        match self {
            AuthError::ConfigNotFound(m) => AuthErrorView::ConfigNotFound(m@),
            AuthError::InvalidConfig(m) => AuthErrorView::InvalidConfig(m@),
            AuthError::IoError(_) => AuthErrorView::Io,
            AuthError::CryptoError(m) => AuthErrorView::Crypto(m@),
        }
    }
}

impl From<std::io::Error> for AuthError {
    /// An I/O failure becomes `IoError`.
    fn from(err: std::io::Error) -> (r: Self) {
        AuthError::IoError(err)
    }
}

impl vstd::std_specs::convert::FromSpecImpl<std::io::Error> for AuthError {
    open spec fn obeys_from_spec() -> bool {
        true
    }

    open spec fn from_spec(v: std::io::Error) -> AuthError {
        AuthError::IoError(v)
    }
}

impl AuthError {
    /// The message this error displays.
    pub fn message(&self) -> (r: String)
        ensures
            match self@ {
                AuthErrorView::ConfigNotFound(m) => r@ == "Config not found: "@ + m,
                AuthErrorView::InvalidConfig(m) => r@ == "Invalid config: "@ + m,
                AuthErrorView::Crypto(m) => r@ == "Crypto error: "@ + m,
                AuthErrorView::Io => "IO error: "@.is_prefix_of(r@),
            },
    {
        match self {
            AuthError::ConfigNotFound(m) => concat2("Config not found: ", m.as_str()),
            AuthError::InvalidConfig(m) => concat2("Invalid config: ", m.as_str()),
            AuthError::IoError(e) => {
                let t = e.to_string();
                let r = concat2("IO error: ", t.as_str());
                proof {
                    assert(("IO error: "@ + t@).subrange(0, "IO error: "@.len() as int)
                        =~= "IO error: "@);
                }
                r
            },
            AuthError::CryptoError(m) => concat2("Crypto error: ", m.as_str()),
        }
    }
}

/// The key id `{tenancy}/{user}/{fingerprint}` that API signatures name.
pub open spec fn key_id_spec(tenancy: Seq<char>, user: Seq<char>, fingerprint: Seq<char>) -> Seq<
    char,
> {
    tenancy + "/"@ + user + "/"@ + fingerprint
}

/// Composes the key id from its three parts.
pub fn compose_key_id(tenancy: &str, user: &str, fingerprint: &str) -> (r: String)
    ensures
        r@ == key_id_spec(tenancy@, user@, fingerprint@),
{
    let mut r = String::from_str(tenancy);
    r.append("/");
    r.append(user);
    r.append("/");
    r.append(fingerprint);
    r
}

/// Abstract value of a text-or-error result.
pub open spec fn str_result_view(r: Result<String, AuthError>) -> Result<Seq<char>, AuthErrorView> {
    match r {
        Ok(v) => Ok(v@),
        Err(e) => Err(e@),
    }
}

/// The key id made of a tenancy, a user and a fingerprint, or the first
/// error among the three, in that order.
pub open spec fn key_id_outcome(
    tenancy: Result<Seq<char>, AuthErrorView>,
    user: Result<Seq<char>, AuthErrorView>,
    fingerprint: Result<Seq<char>, AuthErrorView>,
) -> Result<Seq<char>, AuthErrorView> {
    match tenancy {
        Err(e) => Err(e),
        Ok(t) => match user {
            Err(e) => Err(e),
            Ok(u) => match fingerprint {
                Err(e) => Err(e),
                Ok(f) => Ok(key_id_spec(t, u, f)),
            },
        },
    }
}

/// Source of the credentials used to sign Oracle Cloud API requests.
///
/// Each credential is given by a spec function that the accessor's result
/// is held to, so that what is built from a provider can be stated.
pub trait ConfigurationProvider {
    /// What `user_id` gives.
    spec fn user_id_result(&self) -> Result<Seq<char>, AuthErrorView>;

    /// What `tenancy_id` gives.
    spec fn tenancy_id_result(&self) -> Result<Seq<char>, AuthErrorView>;

    /// What `fingerprint` gives.
    spec fn fingerprint_result(&self) -> Result<Seq<char>, AuthErrorView>;

    /// What `private_key` gives.
    spec fn private_key_result(&self) -> Result<Seq<char>, AuthErrorView>;

    /// What `region` gives.
    spec fn region_result(&self) -> Result<Seq<char>, AuthErrorView>;

    /// Returns the user OCID.
    fn user_id(&self) -> (r: Result<String, AuthError>)
        ensures
            str_result_view(r) == self.user_id_result(),
    ;

    /// Returns the tenancy OCID.
    fn tenancy_id(&self) -> (r: Result<String, AuthError>)
        ensures
            str_result_view(r) == self.tenancy_id_result(),
    ;

    /// Returns the public key fingerprint.
    fn fingerprint(&self) -> (r: Result<String, AuthError>)
        ensures
            str_result_view(r) == self.fingerprint_result(),
    ;

    /// Returns the private key in PEM format.
    fn private_key(&self) -> (r: Result<String, AuthError>)
        ensures
            str_result_view(r) == self.private_key_result(),
    ;

    /// Returns the region identifier.
    fn region(&self) -> (r: Result<String, AuthError>)
        ensures
            str_result_view(r) == self.region_result(),
    ;

    /// Returns the passphrase for the private key, if any; by default there
    /// is none.
    fn passphrase(&self) -> (r: Result<Option<String>, AuthError>)
        default_ensures
            r matches Ok(None),
    {
        Ok(None)
    }

    /// Returns the key id `{tenancy}/{user}/{fingerprint}`, or the first
    /// error among tenancy, user and fingerprint.
    fn key_id(&self) -> (r: Result<String, AuthError>)
        ensures
            str_result_view(r) == key_id_outcome(
                self.tenancy_id_result(),
                self.user_id_result(),
                self.fingerprint_result(),
            ),
    {
        let tenancy = match self.tenancy_id() {
            Ok(t) => t,
            Err(e) => {
                return Err(e);
            },
        };
        let user = match self.user_id() {
            Ok(u) => u,
            Err(e) => {
                return Err(e);
            },
        };
        let fingerprint = match self.fingerprint() {
            Ok(f) => f,
            Err(e) => {
                return Err(e);
            },
        };
        Ok(compose_key_id(tenancy.as_str(), user.as_str(), fingerprint.as_str()))
    }
}

// ---------------------------------------------------------------------------
// Paths
// ---------------------------------------------------------------------------

/// `PathBuf::push` on Unix: an absolute `p` replaces `base`; otherwise a
/// separator is added unless `base` is empty or already ends with one.
pub open spec fn path_join(base: Seq<char>, p: Seq<char>) -> Seq<char> {
    if p.len() > 0 && p[0] == '/' {
        p
    } else if base.len() > 0 && base.last() != '/' {
        base + "/"@ + p
    } else {
        base + p
    }
}

/// Joins two path strings as `PathBuf::join` does on Unix.
pub fn join_path(base: &str, p: &str) -> (r: String)
    ensures
        r@ == path_join(base@, p@),
{
    let pc = str_chars(p);
    if pc.len() > 0 && pc[0] == '/' {
        return string_of(pc.as_slice());
    }
    let bc = str_chars(base);
    if bc.len() > 0 && bc[bc.len() - 1] != '/' {
        concat3(base, "/", p)
    } else {
        concat2(base, p)
    }
}

/// The OCI configuration file under a home directory, `{home}/.oci/config`.
pub open spec fn default_config_path_spec(home: Seq<char>) -> Seq<char> {
    path_join(path_join(home, ".oci"@), "config"@)
}

/// Locates `~/.oci/config` given the home directory (from `HOME`, else
/// `USERPROFILE`), failing when neither is known.
pub fn default_config_path(home: Option<&str>) -> (r: Result<String, AuthError>)
    ensures
        match home {
            Some(h) => r matches Ok(p) && p@ == default_config_path_spec(h@),
            None => r matches Err(e) && e@ == AuthErrorView::ConfigNotFound(
                "Cannot determine home directory"@,
            ),
        },
{
    match home {
        Some(h) => {
            let a = join_path(h, ".oci");
            Ok(join_path(a.as_str(), "config"))
        },
        None => Err(AuthError::ConfigNotFound(String::from_str("Cannot determine home directory"))),
    }
}

/// `~/rest` expands to `rest` under the home directory when one is known;
/// any other path is kept as it is.
pub open spec fn expand_path_spec(path: Seq<char>, home: Option<Seq<char>>) -> Seq<char> {
    if "~/"@.is_prefix_of(path) && home is Some {
        path_join(home->0, path.skip(2))
    } else {
        path
    }
}

/// Expands a leading `~/` in a key file path.
pub fn expand_path(path: &str, home: Option<&str>) -> (r: String)
    ensures
        r@ == expand_path_spec(
            path@,
            match home {
                Some(h) => Some(h@),
                None => None,
            },
        ),
{
    proof {
        reveal_strlit("~/");
    }
    match home {
        Some(h) => {
            if str_starts_with(path, "~/") {
                let rest = str_chars(path);
                let tail = sub_chars(rest.as_slice(), 2, rest.len());
                let tail_s = string_of(tail.as_slice());
                proof {
                    assert(tail@ =~= path@.skip(2));
                }
                join_path(h, tail_s.as_str())
            } else {
                String::from_str(path)
            }
        },
        None => String::from_str(path),
    }
}

// ---------------------------------------------------------------------------
// INI configuration (configparser)
// ---------------------------------------------------------------------------

/// Declares `configparser::ini::Ini`.
#[verifier::external_type_specification]
#[verifier::external_body]
pub struct ExIni(Ini);

/// Sections of an INI document: section name to (key to optional value).
pub type IniMap = Map<Seq<char>, Map<Seq<char>, Option<Seq<char>>>>;

/// What an `Ini` configuration holds: its section map.
pub uninterp spec fn ini_contents(ini: Ini) -> Map<Seq<char>, Map<Seq<char>, Option<Seq<char>>>>;

/// What `Ini::read` of a fresh case-insensitive `Ini` returns for a text:
/// the parsed sections, or the parser's error message.
pub uninterp spec fn ini_parse(text: Seq<char>) -> Result<
    Map<Seq<char>, Map<Seq<char>, Option<Seq<char>>>>,
    Seq<char>,
>;

/// A stored value: missing section, missing key and a key without value
/// all give `None`.
pub open spec fn ini_lookup(m: IniMap, section: Seq<char>, key: Seq<char>) -> Option<Seq<char>> {
    if m.contains_key(section) && m[section].contains_key(key) {
        m[section][key]
    } else {
        None
    }
}

/// Calls `Ini::new` and then `Ini::read` on a copy of `text`. Claimed: on
/// success the configuration holds `ini_parse(text)`; on failure the error
/// message is the one `ini_parse` names.
#[verifier::external_body]
fn ini_read(text: &str) -> (r: Result<Ini, String>)
    ensures
        match r {
            Ok(ini) => ini_parse(text@) is Ok && ini_contents(ini) == ini_parse(text@)->Ok_0,
            Err(e) => ini_parse(text@) is Err && e@ == ini_parse(text@)->Err_0,
        },
{
    let mut ini = Ini::new();
    ini.read(text.to_string()).map(|_| ini)
}

/// Calls `Ini::get`. Claimed, for a configuration made by `Ini::new` (case
/// insensitive, no cascading defaults): section and key are folded with
/// `casefold` and looked up in the section map.
#[verifier::external_body]
fn ini_get(ini: &Ini, section: &str, key: &str) -> (r: Option<String>)
    ensures
        opt_view(r) == ini_lookup(ini_contents(*ini), casefold(section@), casefold(key@)),
{
    ini.get(section, key)
}

/// Settings of one profile of an OCI configuration file.
#[derive(Debug, Clone)]
pub struct ProfileSettings {
    pub user: String,
    pub tenancy: String,
    pub fingerprint: String,
    pub region: String,
    pub key_file: String,
    pub passphrase: Option<String>,
}

/// Abstract value of [`ProfileSettings`].
pub struct ProfileSettingsView {
    pub user: Seq<char>,
    pub tenancy: Seq<char>,
    pub fingerprint: Seq<char>,
    pub region: Seq<char>,
    pub key_file: Seq<char>,
    pub passphrase: Option<Seq<char>>,
}

impl View for ProfileSettings {
    type V = ProfileSettingsView;

    open spec fn view(&self) -> ProfileSettingsView {
        ProfileSettingsView {
            user: self.user@,
            tenancy: self.tenancy@,
            fingerprint: self.fingerprint@,
            region: self.region@,
            key_file: self.key_file@,
            passphrase: opt_view(self.passphrase),
        }
    }
}

/// A required key of a profile is missing.
pub open spec fn missing_field_message(key: Seq<char>) -> Seq<char> {
    "Missing '"@ + key + "' field"@
}

/// The value of `key` in `profile` of the parsed configuration `m`.
pub open spec fn profile_value(m: IniMap, profile: Seq<char>, key: Seq<char>) -> Option<Seq<char>> {
    ini_lookup(m, casefold(profile), key)
}

/// The first required key (in the order user, tenancy, fingerprint,
/// region, key_file) that `profile` lacks.
pub open spec fn first_missing_key(m: IniMap, profile: Seq<char>) -> Option<Seq<char>> {
    if profile_value(m, profile, "user"@) is None {
        Some("user"@)
    } else if profile_value(m, profile, "tenancy"@) is None {
        Some("tenancy"@)
    } else if profile_value(m, profile, "fingerprint"@) is None {
        Some("fingerprint"@)
    } else if profile_value(m, profile, "region"@) is None {
        Some("region"@)
    } else if profile_value(m, profile, "key_file"@) is None {
        Some("key_file"@)
    } else {
        None
    }
}

/// Looks up one required key, reporting it as missing when absent.
fn required(ini: &Ini, profile: &str, key: &str) -> (r: Result<String, AuthError>)
    requires
        ascii_without_upper(key@),
    ensures
        match r {
            Ok(v) => profile_value(ini_contents(*ini), profile@, key@) == Some(v@),
            Err(e) => profile_value(ini_contents(*ini), profile@, key@) is None
                && e@ == AuthErrorView::InvalidConfig(missing_field_message(key@)),
        },
{
    match ini_get(ini, profile, key) {
        Some(v) => Ok(v),
        None => {
            let m = concat3("Missing '", key, "' field");
            Err(AuthError::InvalidConfig(m))
        },
    }
}

proof fn lemma_lower_keys()
    ensures
        ascii_without_upper("user"@),
        ascii_without_upper("tenancy"@),
        ascii_without_upper("fingerprint"@),
        ascii_without_upper("region"@),
        ascii_without_upper("key_file"@),
        ascii_without_upper("pass_phrase"@),
{
    reveal_strlit("user");
    reveal_strlit("tenancy");
    reveal_strlit("fingerprint");
    reveal_strlit("region");
    reveal_strlit("key_file");
    reveal_strlit("pass_phrase");
}

/// The message of a configuration file that could not be loaded.
pub open spec fn load_error_message(path: Seq<char>, why: Seq<char>) -> Seq<char> {
    "Failed to load config file: couldn't read "@ + path + ": "@ + why
}

/// The error for a configuration file at `path` that could not be read or
/// parsed, `why` saying what went wrong.
pub fn load_error(path: &str, why: &str) -> (e: AuthError)
    ensures
        e@ == AuthErrorView::ConfigNotFound(load_error_message(path@, why@)),
{
    let a = concat3("Failed to load config file: couldn't read ", path, ": ");
    AuthError::ConfigNotFound(concat2(a.as_str(), why))
}

/// What reading `profile` from the configuration text at `path` gives:
/// the load error when the text does not parse, the first missing required
/// key, or the profile's settings.
pub open spec fn profile_outcome(path: Seq<char>, text: Seq<char>, profile: Seq<char>) -> Result<
    ProfileSettingsView,
    AuthErrorView,
> {
    match ini_parse(text) {
        Err(msg) => Err(AuthErrorView::ConfigNotFound(load_error_message(path, msg))),
        Ok(m) => match first_missing_key(m, profile) {
            Some(k) => Err(AuthErrorView::InvalidConfig(missing_field_message(k))),
            None => Ok(
                ProfileSettingsView {
                    user: profile_value(m, profile, "user"@)->0,
                    tenancy: profile_value(m, profile, "tenancy"@)->0,
                    fingerprint: profile_value(m, profile, "fingerprint"@)->0,
                    region: profile_value(m, profile, "region"@)->0,
                    key_file: profile_value(m, profile, "key_file"@)->0,
                    passphrase: profile_value(m, profile, "pass_phrase"@),
                },
            ),
        },
    }
}

/// Reads the settings of `profile` from the text of the OCI configuration
/// file at `path`. Fails with `ConfigNotFound` when the text does not
/// parse, and with `InvalidConfig` naming the first missing required key;
/// the passphrase comes from the optional `pass_phrase` key.
pub fn parse_profile(path: &str, text: &str, profile: &str) -> (r: Result<ProfileSettings, AuthError>)
    ensures
        match r {
            Ok(p) => profile_outcome(path@, text@, profile@) == Ok::<ProfileSettingsView, AuthErrorView>(p@),
            Err(e) => profile_outcome(path@, text@, profile@) == Err::<ProfileSettingsView, AuthErrorView>(e@),
        },
{
    proof {
        lemma_lower_keys();
    }
    let ini = match ini_read(text) {
        Ok(ini) => ini,
        Err(e) => {
            return Err(load_error(path, e.as_str()));
        },
    };
    let user = required(&ini, profile, "user")?;
    let tenancy = required(&ini, profile, "tenancy")?;
    let fingerprint = required(&ini, profile, "fingerprint")?;
    let region = required(&ini, profile, "region")?;
    let key_file = required(&ini, profile, "key_file")?;
    let passphrase = ini_get(&ini, profile, "pass_phrase");
    Ok(ProfileSettings { user, tenancy, fingerprint, region, key_file, passphrase })
}

/// Where a provider's settings are read from: a configuration file and a
/// profile in it.
#[derive(Debug, Clone)]
pub struct ConfigLocation {
    pub path: String,
    pub profile: String,
}

/// A profile whose settings were read, and the private key file it names
/// (with `~/` expanded), which is still to be read.
#[derive(Debug, Clone)]
pub struct KeyFileRequest {
    pub settings: ProfileSettings,
    pub key_path: String,
}

/// The view of an optional string slice.
pub open spec fn opt_str_view(o: Option<&str>) -> Option<Seq<char>> {
    match o {
        Some(s) => Some(s@),
        None => None,
    }
}

/// The message of a private key file that could not be read.
pub open spec fn key_read_error_message(why: Seq<char>) -> Seq<char> {
    "Failed to read private key file: "@ + why
}

/// Credentials read from an OCI configuration file.
#[derive(Debug, Clone)]
pub struct FileConfigProvider {
    user_id: String,
    tenancy_id: String,
    fingerprint: String,
    private_key: String,
    region: String,
    passphrase: Option<String>,
}

impl FileConfigProvider {
    /// The user OCID held.
    pub closed spec fn user_view(&self) -> Seq<char> {
        self.user_id@
    }

    /// The tenancy OCID held.
    pub closed spec fn tenancy_view(&self) -> Seq<char> {
        self.tenancy_id@
    }

    /// The fingerprint held.
    pub closed spec fn fingerprint_view(&self) -> Seq<char> {
        self.fingerprint@
    }

    /// The private key held.
    pub closed spec fn private_key_view(&self) -> Seq<char> {
        self.private_key@
    }

    /// The region held.
    pub closed spec fn region_view(&self) -> Seq<char> {
        self.region@
    }

    /// The passphrase held.
    pub closed spec fn passphrase_view(&self) -> Option<Seq<char>> {
        opt_view(self.passphrase)
    }

    /// Makes a provider from a profile's settings and the contents of its
    /// key file.
    pub fn from_settings(settings: ProfileSettings, private_key: String) -> (r: Self)
        ensures
            r.user_view() == settings.user@,
            r.tenancy_view() == settings.tenancy@,
            r.fingerprint_view() == settings.fingerprint@,
            r.region_view() == settings.region@,
            r.private_key_view() == private_key@,
            r.passphrase_view() == opt_view(settings.passphrase),
    {
        FileConfigProvider {
            user_id: settings.user,
            tenancy_id: settings.tenancy,
            fingerprint: settings.fingerprint,
            private_key,
            region: settings.region,
            passphrase: settings.passphrase,
        }
    }

    /// Where the `DEFAULT` profile is read from: `~/.oci/config`, given the
    /// home directory (from `HOME`, else `USERPROFILE`).
    pub fn new(home: Option<&str>) -> (r: Result<ConfigLocation, AuthError>)
        ensures
            match home {
                Some(h) => r matches Ok(l) && l.path@ == default_config_path_spec(h@) && l.profile@
                    == "DEFAULT"@,
                None => r matches Err(e) && e@ == AuthErrorView::ConfigNotFound(
                    "Cannot determine home directory"@,
                ),
            },
    {
        Self::from_profile("DEFAULT", home)
    }

    /// Where `profile` is read from: `~/.oci/config`, given the home
    /// directory; fails when no home directory is known.
    pub fn from_profile(profile: &str, home: Option<&str>) -> (r: Result<ConfigLocation, AuthError>)
        ensures
            match home {
                Some(h) => r matches Ok(l) && l.path@ == default_config_path_spec(h@) && l.profile@
                    == profile@,
                None => r matches Err(e) && e@ == AuthErrorView::ConfigNotFound(
                    "Cannot determine home directory"@,
                ),
            },
    {
        let path = default_config_path(home)?;
        Ok(ConfigLocation { path, profile: String::from_str(profile) })
    }

    /// Reads `profile` from what reading the configuration file at `path`
    /// gave (its text, or why it could not be read), and names the private
    /// key file to read next.
    pub fn from_file(
        path: &str,
        profile: &str,
        contents: Result<String, String>,
        home: Option<&str>,
    ) -> (r: Result<KeyFileRequest, AuthError>)
        ensures
            match contents {
                Err(why) => r matches Err(e) && e@ == AuthErrorView::ConfigNotFound(
                    load_error_message(path@, why@),
                ),
                Ok(text) => match profile_outcome(path@, text@, profile@) {
                    Err(ev) => r matches Err(e) && e@ == ev,
                    Ok(ps) => r matches Ok(k) && k.settings@ == ps && k.key_path@
                        == expand_path_spec(ps.key_file, opt_str_view(home)),
                },
            },
    {
        let text = match contents {
            Ok(t) => t,
            Err(why) => {
                return Err(load_error(path, why.as_str()));
            },
        };
        let settings = parse_profile(path, text.as_str(), profile)?;
        let key_path = expand_path(settings.key_file.as_str(), home);
        Ok(KeyFileRequest { settings, key_path })
    }

    /// Finishes a provider with what reading its private key file gave.
    pub fn with_key_file(request: KeyFileRequest, key: Result<String, String>) -> (r: Result<
        Self,
        AuthError,
    >)
        ensures
            match key {
                Err(why) => r matches Err(e) && e@ == AuthErrorView::ConfigNotFound(
                    key_read_error_message(why@),
                ),
                Ok(k) => r matches Ok(p) && p.user_view() == request.settings.user@
                    && p.tenancy_view() == request.settings.tenancy@ && p.fingerprint_view()
                    == request.settings.fingerprint@ && p.region_view() == request.settings.region@
                    && p.private_key_view() == k@ && p.passphrase_view() == opt_view(
                    request.settings.passphrase,
                ),
            },
    {
        match key {
            Ok(k) => Ok(Self::from_settings(request.settings, k)),
            Err(why) => Err(
                AuthError::ConfigNotFound(concat2("Failed to read private key file: ", why.as_str())),
            ),
        }
    }
}

impl ConfigurationProvider for FileConfigProvider {
    open spec fn user_id_result(&self) -> Result<Seq<char>, AuthErrorView> {
        Ok(self.user_view())
    }

    open spec fn tenancy_id_result(&self) -> Result<Seq<char>, AuthErrorView> {
        Ok(self.tenancy_view())
    }

    open spec fn fingerprint_result(&self) -> Result<Seq<char>, AuthErrorView> {
        Ok(self.fingerprint_view())
    }

    open spec fn private_key_result(&self) -> Result<Seq<char>, AuthErrorView> {
        Ok(self.private_key_view())
    }

    open spec fn region_result(&self) -> Result<Seq<char>, AuthErrorView> {
        Ok(self.region_view())
    }

    fn user_id(&self) -> (r: Result<String, AuthError>)
        ensures
            r matches Ok(v) && v@ == self.user_view(),
    {
        Ok(self.user_id.clone())
    }

    fn tenancy_id(&self) -> (r: Result<String, AuthError>)
        ensures
            r matches Ok(v) && v@ == self.tenancy_view(),
    {
        Ok(self.tenancy_id.clone())
    }

    fn fingerprint(&self) -> (r: Result<String, AuthError>)
        ensures
            r matches Ok(v) && v@ == self.fingerprint_view(),
    {
        Ok(self.fingerprint.clone())
    }

    fn private_key(&self) -> (r: Result<String, AuthError>)
        ensures
            r matches Ok(v) && v@ == self.private_key_view(),
    {
        Ok(self.private_key.clone())
    }

    fn region(&self) -> (r: Result<String, AuthError>)
        ensures
            r matches Ok(v) && v@ == self.region_view(),
    {
        Ok(self.region.clone())
    }

    fn passphrase(&self) -> (r: Result<Option<String>, AuthError>)
        ensures
            r matches Ok(v) && opt_view(v) == self.passphrase_view(),
    {
        Ok(copy_opt_string(&self.passphrase))
    }
}

} // verus!
