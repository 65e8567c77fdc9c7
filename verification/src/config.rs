//! Auth/connection config, resolved in priority order:
//! 1. `--api-url`/`--token`/`--project` flags,
//! 2. `WALDUR_API_URL`/`WALDUR_ACCESS_TOKEN`/`WALDUR_PROJECT`,
//! 3. the selected profile of the credentials file written by `login`.
//!
//! The credentials file is modelled here as a map from profile name to
//! [`StoredCredentials`]; reading and writing it is the caller's job, which
//! reads it only when [`needs_credentials_file`] says so.

use vstd::prelude::*;
use crate::json::{str_field, Json, JsonView};
use crate::text::{concat2, concat3, owned, str_eq, trim_end_char, trim_trailing};

verus! {

/// The profile name used when `--profile`/`WALDUR_PROFILE` isn't given.
pub const DEFAULT_PROFILE: &'static str = "default";

/// The credentials saved for one profile.
#[derive(Debug)]
pub struct StoredCredentials {
    pub api_url: String,
    pub token: String,
    /// Default project (UUID) this profile is scoped to, if any.
    pub project: Option<String>,
}

/// The mathematical value of [`StoredCredentials`].
pub struct CredsView {
    pub api_url: Seq<char>,
    pub token: Seq<char>,
    pub project: Option<Seq<char>>,
}

/// The view of an optional string.
pub open spec fn ov(o: Option<String>) -> Option<Seq<char>> {
    match o {
        Some(s) => Some(s@),
        None => None,
    }
}

impl View for StoredCredentials {
    type V = CredsView;

    open spec fn view(&self) -> CredsView {
        CredsView { api_url: self.api_url@, token: self.token@, project: ov(self.project) }
    }
}

fn copy_opt(o: &Option<String>) -> (r: Option<String>)
    ensures
        ov(r) == ov(*o),
{
    match o {
        Some(s) => Some(s.clone()),
        None => None,
    }
}

impl StoredCredentials {
    /// A copy of these credentials.
    pub fn duplicate(&self) -> (r: StoredCredentials)
        ensures
            r@ == self@,
    {
        StoredCredentials {
            api_url: self.api_url.clone(),
            token: self.token.clone(),
            project: copy_opt(&self.project),
        }
    }
}

/// The map a list of `(profile, credentials)` entries describes.
pub open spec fn profiles_map(s: Seq<(String, StoredCredentials)>) -> Map<Seq<char>, CredsView> {
    Map::new(
        |k: Seq<char>| exists|i: int| 0 <= i < s.len() && #[trigger] s[i].0@ == k,
        |k: Seq<char>| s[choose|i: int| 0 <= i < s.len() && #[trigger] s[i].0@ == k].1@,
    )
}

/// Whether no two entries name the same profile.
pub open spec fn unique_names(s: Seq<(String, StoredCredentials)>) -> bool {
    forall|i: int, j: int| 0 <= i < s.len() && 0 <= j < s.len() && i != j ==> #[trigger] s[i].0@
        != #[trigger] s[j].0@
}

proof fn lemma_profiles_entry(s: Seq<(String, StoredCredentials)>, i: int)
    requires
        unique_names(s),
        0 <= i < s.len(),
    ensures
        profiles_map(s).contains_key(s[i].0@),
        profiles_map(s)[s[i].0@] == s[i].1@,
{
    let k = s[i].0@;
    assert(exists|j: int| 0 <= j < s.len() && #[trigger] s[j].0@ == k);
    let j = choose|j: int| 0 <= j < s.len() && #[trigger] s[j].0@ == k;
    assert(j == i);
}

proof fn lemma_profiles_absent(s: Seq<(String, StoredCredentials)>, k: Seq<char>)
    requires
        forall|i: int| 0 <= i < s.len() ==> #[trigger] s[i].0@ != k,
    ensures
        !profiles_map(s).contains_key(k),
{
}

/// Appending an entry for a new profile inserts it into the map.
proof fn lemma_profiles_push(s: Seq<(String, StoredCredentials)>, e: (String, StoredCredentials))
    requires
        unique_names(s.push(e)),
    ensures
        profiles_map(s.push(e)) == profiles_map(s).insert(e.0@, e.1@),
{
    let p = s.push(e);
    let n = s.len() as int;
    assert(unique_names(s)) by {
        assert forall|a: int, b: int|
            0 <= a < s.len() && 0 <= b < s.len() && a != b implies #[trigger] s[a].0@
            != #[trigger] s[b].0@ by {
            assert(p[a] == s[a] && p[b] == s[b]);
        }
    }
    assert(profiles_map(p) =~= profiles_map(s).insert(e.0@, e.1@)) by {
        assert forall|k: Seq<char>| #[trigger] profiles_map(p).contains_key(k) implies profiles_map(
            s,
        ).insert(e.0@, e.1@).contains_key(k) by {
            let j = choose|j: int| 0 <= j < p.len() && #[trigger] p[j].0@ == k;
            if j < n {
                assert(p[j] == s[j]);
                lemma_profiles_entry(s, j);
            }
        }
        assert forall|k: Seq<char>| #[trigger] profiles_map(s).insert(e.0@, e.1@).contains_key(k)
            implies profiles_map(p).contains_key(k) && profiles_map(p)[k] == profiles_map(s).insert(
            e.0@,
            e.1@,
        )[k] by {
            if k == e.0@ {
                lemma_profiles_entry(p, n);
            } else {
                let j = choose|j: int| 0 <= j < s.len() && #[trigger] s[j].0@ == k;
                lemma_profiles_entry(s, j);
                assert(p[j] == s[j]);
                lemma_profiles_entry(p, j);
            }
        }
    }
}

/// The credentials file: the saved credentials of each profile.
#[derive(Debug)]
pub struct CredentialsFile {
    profiles: Vec<(String, StoredCredentials)>,
}

impl View for CredentialsFile {
    type V = Map<Seq<char>, CredsView>;

    closed spec fn view(&self) -> Map<Seq<char>, CredsView> {
        profiles_map(self.profiles@)
    }
}

impl CredentialsFile {
    /// The invariant: no profile is listed twice.
    pub closed spec fn wf(&self) -> bool {
        unique_names(self.profiles@)
    }

    /// A file with no profiles (what a missing file reads as).
    pub fn new() -> (r: CredentialsFile)
        ensures
            r.wf(),
            r@ == Map::<Seq<char>, CredsView>::empty(),
    {
        let r = CredentialsFile { profiles: Vec::new() };
        assert(r@ =~= Map::<Seq<char>, CredsView>::empty());
        r
    }

    /// Whether no profile is saved.
    pub fn is_empty(&self) -> (r: bool)
        requires
            self.wf(),
        ensures
            r == (self@.dom() == Set::<Seq<char>>::empty()),
    {
        if self.profiles.len() == 0 {
            assert(self@.dom() =~= Set::<Seq<char>>::empty());
            true
        } else {
            proof {
                lemma_profiles_entry(self.profiles@, 0);
                assert(self@.dom().contains(self.profiles@[0].0@));
            }
            false
        }
    }

    /// The saved profiles, in order (for writing the file).
    pub fn entries(&self) -> (r: &Vec<(String, StoredCredentials)>)
        ensures
            profiles_map(r@) == self@,
    {
        &self.profiles
    }

    /// Builds the file from `(profile, credentials)` entries as read back
    /// from disk (where no profile is listed twice).
    pub fn from_entries(entries: &Vec<(String, StoredCredentials)>) -> (r: CredentialsFile)
        ensures
            r.wf(),
            unique_names(entries@) ==> r@ == profiles_map(entries@),
    {
        let mut file = CredentialsFile::new();
        let mut i: usize = 0;
        assert(profiles_map(entries@.take(0)) =~= Map::<Seq<char>, CredsView>::empty());
        while i < entries.len()
            invariant
                i <= entries@.len(),
                file.wf(),
                unique_names(entries@) ==> file@ == profiles_map(entries@.take(i as int)),
            decreases entries@.len() - i,
        {
            save_stored(&mut file, entries[i].0.as_str(), &entries[i].1);
            proof {
                if unique_names(entries@) {
                    let t = entries@.take(i + 1);
                    assert(t =~= entries@.take(i as int).push(entries@[i as int]));
                    assert(unique_names(t));
                    lemma_profiles_push(entries@.take(i as int), entries@[i as int]);
                }
            }
            i = i + 1;
        }
        assert(entries@.take(entries@.len() as int) =~= entries@);
        file
    }

    fn position(&self, profile: &str) -> (r: Option<usize>)
        requires
            self.wf(),
        ensures
            match r {
                Some(i) => i < self.profiles@.len() && self.profiles@[i as int].0@ == profile@,
                None => forall|i: int|
                    0 <= i < self.profiles@.len() ==> #[trigger] self.profiles@[i].0@ != profile@,
            },
    {
        let mut i: usize = 0;
        while i < self.profiles.len()
            invariant
                i <= self.profiles@.len(),
                forall|k: int| 0 <= k < i ==> #[trigger] self.profiles@[k].0@ != profile@,
            decreases self.profiles@.len() - i,
        {
            if str_eq(self.profiles[i].0.as_str(), profile) {
                return Some(i);
            }
            i = i + 1;
        }
        None
    }
}

/// The credentials saved for `profile`, if any.
pub fn load_stored(file: &CredentialsFile, profile: &str) -> (r: Option<StoredCredentials>)
    requires
        file.wf(),
    ensures
        match r {
            Some(c) => file@.contains_key(profile@) && c@ == file@[profile@],
            None => !file@.contains_key(profile@),
        },
{
    match file.position(profile) {
        Some(i) => {
            proof {
                lemma_profiles_entry(file.profiles@, i as int);
            }
            Some(file.profiles[i].1.duplicate())
        },
        None => {
            proof {
                lemma_profiles_absent(file.profiles@, profile@);
            }
            None
        },
    }
}

/// Saves `creds` as `profile`'s credentials, replacing any earlier ones.
pub fn save_stored(file: &mut CredentialsFile, profile: &str, creds: &StoredCredentials)
    requires
        old(file).wf(),
    ensures
        final(file).wf(),
        final(file)@ == old(file)@.insert(profile@, creds@),
{
    let ghost before = file.profiles@;
    match file.position(profile) {
        Some(i) => {
            file.profiles.set(i, (owned(profile), creds.duplicate()));
            let ghost after = file.profiles@;
            assert(unique_names(after)) by {
                assert forall|a: int, b: int|
                    0 <= a < after.len() && 0 <= b < after.len() && a != b implies #[trigger] after[a].0@
                    != #[trigger] after[b].0@ by {
                    assert(before[a].0@ != before[b].0@);
                }
            }
            assert(file@ =~= profiles_map(before).insert(profile@, creds@)) by {
                assert forall|k: Seq<char>| #[trigger] file@.contains_key(k) implies profiles_map(
                    before,
                ).insert(profile@, creds@).contains_key(k) by {
                    let j = choose|j: int| 0 <= j < after.len() && #[trigger] after[j].0@ == k;
                    if j != i {
                        lemma_profiles_entry(before, j);
                    }
                }
                assert forall|k: Seq<char>|
                    #[trigger] profiles_map(before).insert(profile@, creds@).contains_key(k)
                    implies file@.contains_key(k) && file@[k] == profiles_map(before).insert(
                    profile@,
                    creds@,
                )[k] by {
                    if k == profile@ {
                        lemma_profiles_entry(after, i as int);
                    } else {
                        let j = choose|j: int| 0 <= j < before.len() && #[trigger] before[j].0@ == k;
                        lemma_profiles_entry(before, j);
                        lemma_profiles_entry(after, j);
                    }
                }
            }
        },
        None => {
            file.profiles.push((owned(profile), creds.duplicate()));
            let ghost after = file.profiles@;
            let ghost n = before.len() as int;
            assert(unique_names(after)) by {
                assert forall|a: int, b: int|
                    0 <= a < after.len() && 0 <= b < after.len() && a != b implies #[trigger] after[a].0@
                    != #[trigger] after[b].0@ by {
                    if a < n && b < n {
                        assert(before[a].0@ != before[b].0@);
                    } else if a < n {
                        assert(before[a].0@ != profile@);
                    } else if b < n {
                        assert(before[b].0@ != profile@);
                    }
                }
            }
            assert(file@ =~= profiles_map(before).insert(profile@, creds@)) by {
                assert forall|k: Seq<char>| #[trigger] file@.contains_key(k) implies profiles_map(
                    before,
                ).insert(profile@, creds@).contains_key(k) by {
                    let j = choose|j: int| 0 <= j < after.len() && #[trigger] after[j].0@ == k;
                    if j < n {
                        lemma_profiles_entry(before, j);
                    }
                }
                assert forall|k: Seq<char>|
                    #[trigger] profiles_map(before).insert(profile@, creds@).contains_key(k)
                    implies file@.contains_key(k) && file@[k] == profiles_map(before).insert(
                    profile@,
                    creds@,
                )[k] by {
                    if k == profile@ {
                        lemma_profiles_entry(after, n);
                    } else {
                        let j = choose|j: int| 0 <= j < before.len() && #[trigger] before[j].0@ == k;
                        lemma_profiles_entry(before, j);
                        lemma_profiles_entry(after, j);
                    }
                }
            }
        },
    }
}

/// Removes `profile`'s credentials. Returns whether the profile existed;
/// the caller deletes the file once [`CredentialsFile::is_empty`] holds.
pub fn delete_stored(file: &mut CredentialsFile, profile: &str) -> (r: bool)
    requires
        old(file).wf(),
    ensures
        final(file).wf(),
        r == old(file)@.contains_key(profile@),
        final(file)@ == old(file)@.remove(profile@),
{
    let ghost before = file.profiles@;
    match file.position(profile) {
        Some(i) => {
            proof {
                lemma_profiles_entry(before, i as int);
            }
            file.profiles.remove(i);
            let ghost after = file.profiles@;
            assert(forall|a: int| 0 <= a < after.len() ==> #[trigger] after[a] == (if a < i {
                before[a]
            } else {
                before[a + 1]
            }));
            assert(unique_names(after)) by {
                assert forall|a: int, b: int|
                    0 <= a < after.len() && 0 <= b < after.len() && a != b implies #[trigger] after[a].0@
                    != #[trigger] after[b].0@ by {
                    let a2 = if a < i { a } else { a + 1 };
                    let b2 = if b < i { b } else { b + 1 };
                    assert(before[a2].0@ != before[b2].0@);
                }
            }
            assert(file@ =~= profiles_map(before).remove(profile@)) by {
                assert forall|k: Seq<char>| #[trigger] file@.contains_key(k) implies profiles_map(
                    before,
                ).remove(profile@).contains_key(k) by {
                    let j = choose|j: int| 0 <= j < after.len() && #[trigger] after[j].0@ == k;
                    let j2 = if j < i { j } else { j + 1 };
                    lemma_profiles_entry(before, j2);
                    assert(before[j2].0@ != before[i as int].0@);
                }
                assert forall|k: Seq<char>|
                    #[trigger] profiles_map(before).remove(profile@).contains_key(k)
                    implies file@.contains_key(k) && file@[k] == profiles_map(before).remove(
                    profile@,
                )[k] by {
                    let j = choose|j: int| 0 <= j < before.len() && #[trigger] before[j].0@ == k;
                    lemma_profiles_entry(before, j);
                    assert(j != i);
                    let j2 = if j < i { j } else { j - 1 };
                    lemma_profiles_entry(after, j2);
                }
            }
            true
        },
        None => {
            proof {
                lemma_profiles_absent(before, profile@);
            }
            assert(file@ =~= profiles_map(before).remove(profile@));
            false
        },
    }
}

/// Why configuration could not be resolved or updated.
#[derive(Debug)]
pub enum ConfigError {
    /// No API URL from a flag, the environment or the stored profile.
    NoApiUrl { profile: String },
    /// The credentials file was needed but could not be read (holds the
    /// reader's message).
    Unreadable(String),
    /// `set-project` on a profile with no saved credentials.
    NoCredentials { profile: String },
}

/// The hint at the end of [`ConfigError::NoApiUrl`]'s text.
pub open spec fn login_hint(profile: Seq<char>) -> Seq<char> {
    if profile == "default"@ {
        "run `waldur-cli login`"@
    } else {
        "run `waldur-cli login --profile "@ + profile + "`"@
    }
}

impl ConfigError {
    /// The error's text.
    pub fn message(&self) -> (r: String)
        ensures
            self matches ConfigError::NoApiUrl { profile } ==> r@ == "No API URL given for profile '"@
                + profile@ + "'. Pass --api-url, set WALDUR_API_URL, or "@ + login_hint(profile@)
                + ", e.g. https://waldur.example.com"@,
            self matches ConfigError::Unreadable(m) ==> r@ == m@,
            self matches ConfigError::NoCredentials { profile } ==> r@ == "profile '"@ + profile@
                + "' has no saved credentials -- run `waldur-cli login` first"@,
    {
        match self {
            ConfigError::NoApiUrl { profile } => {
                let hint = if str_eq(profile.as_str(), DEFAULT_PROFILE) {
                    owned("run `waldur-cli login`")
                } else {
                    concat3("run `waldur-cli login --profile ", profile.as_str(), "`")
                };
                let a = concat3(
                    "No API URL given for profile '",
                    profile.as_str(),
                    "'. Pass --api-url, set WALDUR_API_URL, or ",
                );
                concat3(a.as_str(), hint.as_str(), ", e.g. https://waldur.example.com")
            },
            ConfigError::Unreadable(m) => m.clone(),
            ConfigError::NoCredentials { profile } => concat3(
                "profile '",
                profile.as_str(),
                "' has no saved credentials -- run `waldur-cli login` first",
            ),
        }
    }
}

/// Saves a default project (UUID) onto an existing, logged-in profile.
/// Fails, leaving the file as it was, when the profile has no credentials.
pub fn set_project(file: &mut CredentialsFile, profile: &str, project: &str) -> (r: Result<
    (),
    ConfigError,
>)
    requires
        old(file).wf(),
    ensures
        final(file).wf(),
        match r {
            Ok(()) => old(file)@.contains_key(profile@) && final(file)@ == old(file)@.insert(
                profile@,
                CredsView { project: Some(project@), ..old(file)@[profile@] },
            ),
            Err(e) => !old(file)@.contains_key(profile@) && final(file)@ == old(file)@ && (
            e matches ConfigError::NoCredentials { profile: p } && p@ == profile@),
        },
{
    match load_stored(file, profile) {
        None => Err(ConfigError::NoCredentials { profile: owned(profile) }),
        Some(mut creds) => {
            creds.project = Some(owned(project));
            save_stored(file, profile, &creds);
            Ok(())
        },
    }
}

/// Clears a profile's default project. Returns whether one was set (the
/// file is changed, and needs writing, only then).
pub fn unset_project(file: &mut CredentialsFile, profile: &str) -> (r: bool)
    requires
        old(file).wf(),
    ensures
        final(file).wf(),
        r == (old(file)@.contains_key(profile@) && old(file)@[profile@].project is Some),
        r ==> final(file)@ == old(file)@.insert(
            profile@,
            CredsView { project: None, ..old(file)@[profile@] },
        ),
        !r ==> final(file)@ == old(file)@,
{
    match load_stored(file, profile) {
        None => false,
        Some(mut creds) => {
            let had = creds.project.is_some();
            if had {
                creds.project = None;
                save_stored(file, profile, &creds);
            }
            had
        },
    }
}

/// The profile in use: `--profile`, else `WALDUR_PROFILE`, else `default`.
pub fn resolve_profile(flag: Option<String>, env: Option<String>) -> (r: String)
    ensures
        r@ == (match (ov(flag), ov(env)) {
            (Some(f), _) => f,
            (None, Some(e)) => e,
            (None, None) => "default"@,
        }),
{
    match flag {
        Some(f) => f,
        None => match env {
            Some(e) => e,
            None => owned(DEFAULT_PROFILE),
        },
    }
}

/// The credentials `login` saves: the API URL without trailing slashes, the
/// token, and the profile's earlier default project, which a re-login keeps.
pub fn login_credentials(api_url: &str, token: String, existing: Option<&StoredCredentials>) -> (r:
    StoredCredentials)
    ensures
        r@.api_url == trim_end_char(api_url@, '/'),
        r@.token == token@,
        r@.project == (match existing {
            Some(c) => c@.project,
            None => None,
        }),
{
    let project = match existing {
        Some(c) => copy_opt(&c.project),
        None => None,
    };
    StoredCredentials { api_url: trim_trailing(api_url, '/'), token, project }
}

/// The user name `login` reports: the `username` field of `/api/users/me/`,
/// or `(unknown user)`.
pub fn login_user_label(me: &Json) -> (r: String)
    ensures
        r@ == (match str_field(me@, "username"@) {
            Some(u) => u,
            None => "(unknown user)"@,
        }),
{
    match me.str_field("username") {
        Some(u) => u,
        None => owned("(unknown user)"),
    }
}

/// What is saved for a profile is what is read back for it, and saving one
/// profile leaves every other profile as it was.
pub proof fn law_saved_credentials_read_back(
    m: Map<Seq<char>, CredsView>,
    profile: Seq<char>,
    creds: CredsView,
    other: Seq<char>,
)
    ensures
        m.insert(profile, creds).contains_key(profile),
        m.insert(profile, creds)[profile] == creds,
        other != profile ==> m.insert(profile, creds).contains_key(other) == m.contains_key(other),
        other != profile && m.contains_key(other) ==> m.insert(profile, creds)[other] == m[other],
{
}

/// Setting a default project and then clearing it: the set project is read
/// back, clearing reports that one was set and leaves none, a second clear
/// reports that none was set, and URL and token survive throughout.
pub proof fn law_project_set_then_unset(
    m: Map<Seq<char>, CredsView>,
    profile: Seq<char>,
    project: Seq<char>,
)
    requires
        m.contains_key(profile),
    ensures
        ({
            let m1 = m.insert(profile, CredsView { project: Some(project), ..m[profile] });
            let m2 = m1.insert(profile, CredsView { project: None, ..m1[profile] });
            &&& m1[profile].project == Some(project)
            &&& m1.contains_key(profile) && m1[profile].project is Some
            &&& m2[profile].project is None
            &&& !(m2.contains_key(profile) && m2[profile].project is Some)
            &&& m2[profile].api_url == m[profile].api_url
            &&& m2[profile].token == m[profile].token
        }),
{
}

/// After deleting a profile nothing is read back for it, and every other
/// profile is left as it was.
pub proof fn law_deleted_profile_is_gone(
    m: Map<Seq<char>, CredsView>,
    profile: Seq<char>,
    other: Seq<char>,
)
    ensures
        !m.remove(profile).contains_key(profile),
        other != profile ==> m.remove(profile).contains_key(other) == m.contains_key(other),
        other != profile && m.contains_key(other) ==> m.remove(profile)[other] == m[other],
{
}

// ---------------------------------------------------------------------------
// Resolution
// ---------------------------------------------------------------------------

/// The environment variables resolution reads.
#[derive(Debug)]
pub struct ConfigEnv {
    /// `WALDUR_API_URL`.
    pub api_url: Option<String>,
    /// `WALDUR_ACCESS_TOKEN`.
    pub token: Option<String>,
    /// `WALDUR_PROJECT`.
    pub project: Option<String>,
}

/// What reading the selected profile from the credentials file gave.
#[derive(Debug)]
pub enum StoredLookup {
    /// The file was not read.
    NotRead,
    /// The file was read; the profile's credentials, if it has any.
    Read(Option<StoredCredentials>),
    /// The file exists but could not be read or parsed (holds the message).
    Unreadable(String),
}

/// The resolved connection settings.
#[derive(Debug)]
pub struct Config {
    pub api_url: String,
    pub token: Option<String>,
    /// The project (UUID) commands should scope to, if any.
    pub project: Option<String>,
}

/// The mathematical value of a [`Config`].
pub struct ConfigView {
    pub api_url: Seq<char>,
    pub token: Option<Seq<char>>,
    pub project: Option<Seq<char>>,
}

impl View for Config {
    type V = ConfigView;

    open spec fn view(&self) -> ConfigView {
        ConfigView { api_url: self.api_url@, token: ov(self.token), project: ov(self.project) }
    }
}

/// Whether flags and environment leave the API URL or the token open, so
/// that the stored profile must supply them.
pub open spec fn stored_needed(
    api_url_flag: Option<Seq<char>>,
    token_flag: Option<Seq<char>>,
    env_api_url: Option<Seq<char>>,
    env_token: Option<Seq<char>>,
) -> bool {
    (api_url_flag is None && env_api_url is None) || (token_flag is None && env_token is None)
}

/// Whether the credentials file must be read to resolve a configuration:
/// for the API URL or token, or, best-effort, for the profile's default
/// project when neither `--project` nor `WALDUR_PROJECT` is given.
pub fn needs_credentials_file(
    api_url_flag: &Option<String>,
    token_flag: &Option<String>,
    project_flag: &Option<String>,
    env: &ConfigEnv,
) -> (r: bool)
    ensures
        r == (stored_needed(ov(*api_url_flag), ov(*token_flag), ov(env.api_url), ov(env.token)) || (
        project_flag is None && env.project is None)),
{
    (api_url_flag.is_none() && env.api_url.is_none()) || (token_flag.is_none()
        && env.token.is_none()) || (project_flag.is_none() && env.project.is_none())
}

/// The credentials a lookup found.
pub open spec fn found(stored: StoredLookup) -> Option<CredsView> {
    match stored {
        StoredLookup::Read(Some(c)) => Some(c@),
        _ => None,
    }
}

/// `a`, else `b`.
pub open spec fn or_else(a: Option<Seq<char>>, b: Option<Seq<char>>) -> Option<Seq<char>> {
    match a {
        Some(x) => Some(x),
        None => b,
    }
}

/// The outcome of resolution, by its views: `Err(Some(profile))` when no API
/// URL is found, `Err(None)` when the needed file could not be read.
pub open spec fn resolve_spec(
    api_url_flag: Option<Seq<char>>,
    token_flag: Option<Seq<char>>,
    project_flag: Option<Seq<char>>,
    profile: Seq<char>,
    env: ConfigEnv,
    stored: StoredLookup,
) -> Result<ConfigView, Option<Seq<char>>> {
    let need = stored_needed(api_url_flag, token_flag, ov(env.api_url), ov(env.token));
    if need && stored is Unreadable {
        Err(None)
    } else {
        let creds = if need {
            found(stored)
        } else {
            None
        };
        let api = or_else(
            or_else(api_url_flag, ov(env.api_url)),
            match creds {
                Some(c) => Some(c.api_url),
                None => None,
            },
        );
        match api {
            None => Err(Some(profile)),
            Some(url) => Ok(
                ConfigView {
                    api_url: trim_end_char(url, '/'),
                    token: or_else(
                        or_else(token_flag, ov(env.token)),
                        match creds {
                            Some(c) => Some(c.token),
                            None => None,
                        },
                    ),
                    project: or_else(
                        or_else(project_flag, ov(env.project)),
                        match found(stored) {
                            Some(c) => c.project,
                            None => None,
                        },
                    ),
                },
            ),
        }
    }
}

fn first_some(a: Option<String>, b: Option<String>) -> (r: Option<String>)
    ensures
        ov(r) == or_else(ov(a), ov(b)),
{
    match a {
        Some(x) => Some(x),
        None => b,
    }
}

impl Config {
    /// Resolves the connection settings. `stored` is what reading
    /// `profile` from the credentials file gave; the file is consulted for
    /// the API URL and token only when flags and environment leave one of
    /// them open (and a failure to read it is then an error), and otherwise
    /// only, best-effort, for the default project.
    pub fn resolve(
        api_url_flag: Option<String>,
        token_flag: Option<String>,
        project_flag: Option<String>,
        profile: &str,
        env: &ConfigEnv,
        stored: &StoredLookup,
    ) -> (r: Result<Config, ConfigError>)
        ensures
            match (r, resolve_spec(
                ov(api_url_flag),
                ov(token_flag),
                ov(project_flag),
                profile@,
                *env,
                *stored,
            )) {
                (Ok(c), Ok(v)) => c@ == v,
                (Err(ConfigError::NoApiUrl { profile: p }), Err(Some(q))) => p@ == q,
                (Err(ConfigError::Unreadable(m)), Err(None)) => stored matches StoredLookup::Unreadable(
                    n,
                ) && m@ == n@,
                _ => false,
            },
    {
        let need = (api_url_flag.is_none() && env.api_url.is_none()) || (token_flag.is_none()
            && env.token.is_none());
        if need {
            if let StoredLookup::Unreadable(m) = stored {
                return Err(ConfigError::Unreadable(m.clone()));
            }
        }
        let creds: Option<&StoredCredentials> = if need {
            match stored {
                StoredLookup::Read(Some(c)) => Some(c),
                _ => None,
            }
        } else {
            None
        };
        let stored_url = match creds {
            Some(c) => Some(c.api_url.clone()),
            None => None,
        };
        let api = first_some(first_some(api_url_flag, copy_opt(&env.api_url)), stored_url);
        let url = match api {
            None => {
                return Err(ConfigError::NoApiUrl { profile: owned(profile) });
            },
            Some(u) => u,
        };
        let api_url = trim_trailing(url.as_str(), '/');
        let stored_project = match stored {
            StoredLookup::Read(Some(c)) => copy_opt(&c.project),
            _ => None,
        };
        let project = first_some(first_some(project_flag, copy_opt(&env.project)), stored_project);
        let stored_token = match creds {
            Some(c) => Some(c.token.clone()),
            None => None,
        };
        let token = first_some(first_some(token_flag, copy_opt(&env.token)), stored_token);
        Ok(Config { api_url, token, project })
    }
}

/// Without `--token` and `WALDUR_ACCESS_TOKEN` the credentials file is
/// needed, and when the profile was read and has credentials, the token
/// used is the stored one, wherever the API URL came from (flag,
/// environment or the profile itself).
pub proof fn law_missing_token_comes_from_the_profile(
    api_url_flag: Option<Seq<char>>,
    project_flag: Option<Seq<char>>,
    profile: Seq<char>,
    env: ConfigEnv,
    creds: StoredCredentials,
)
    requires
        env.token is None,
    ensures
        stored_needed(api_url_flag, None, ov(env.api_url), ov(env.token)),
        resolve_spec(
            api_url_flag,
            None,
            project_flag,
            profile,
            env,
            StoredLookup::Read(Some(creds)),
        ) matches Ok(c) && c.token == Some(creds@.token),
{
}

/// When flags and environment give the API URL, the token and the project,
/// resolution does not depend on the credentials file at all: a missing,
/// unreadable or corrupt file cannot change or break the result.
pub proof fn law_explicit_settings_ignore_the_file(
    api_url_flag: Option<Seq<char>>,
    token_flag: Option<Seq<char>>,
    project_flag: Option<Seq<char>>,
    profile: Seq<char>,
    env: ConfigEnv,
    stored: StoredLookup,
)
    requires
        !stored_needed(api_url_flag, token_flag, ov(env.api_url), ov(env.token)),
        project_flag is Some || env.project is Some,
    ensures
        resolve_spec(api_url_flag, token_flag, project_flag, profile, env, stored) == resolve_spec(
            api_url_flag,
            token_flag,
            project_flag,
            profile,
            env,
            StoredLookup::NotRead,
        ),
        resolve_spec(api_url_flag, token_flag, project_flag, profile, env, stored) is Ok,
{
}

/// Each setting follows the precedence flag, then environment, then the
/// stored profile: a flag always wins, and the environment wins over the
/// stored profile.
pub proof fn law_settings_precedence(
    api_url_flag: Option<Seq<char>>,
    token_flag: Option<Seq<char>>,
    project_flag: Option<Seq<char>>,
    profile: Seq<char>,
    env: ConfigEnv,
    stored: StoredLookup,
)
    requires
        resolve_spec(api_url_flag, token_flag, project_flag, profile, env, stored) is Ok,
    ensures
        ({
            let c = resolve_spec(api_url_flag, token_flag, project_flag, profile, env, stored)->Ok_0;
            &&& api_url_flag matches Some(u) ==> c.api_url == trim_end_char(u, '/')
            &&& (api_url_flag is None && ov(env.api_url) is Some) ==> c.api_url == trim_end_char(
                ov(env.api_url)->0,
                '/',
            )
            &&& token_flag is Some ==> c.token == token_flag
            &&& (token_flag is None && ov(env.token) is Some) ==> c.token == ov(env.token)
            &&& project_flag is Some ==> c.project == project_flag
            &&& (project_flag is None && ov(env.project) is Some) ==> c.project == ov(env.project)
        }),
{
}

} // verus!
