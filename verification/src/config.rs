//! Program configuration: container profiles keyed by directory path.

use vstd::prelude::*;

use crate::errors::RunError;
use crate::host;

verus! {

/// Container profile data.
#[derive(Debug)]
pub struct Profile {
    /// Run the container with a custom entrypoint.
    pub entrypoint: bool,
    /// Environment variables to define in the container, in order.
    pub env: Vec<(String, Option<String>)>,
    /// OCI container image to use.
    pub image: String,
    /// Directories to append to the end of `PATH` (when using custom entrypoint).
    pub path_append: Vec<String>,
    /// Directories to prepend to the beginning of `PATH` (when using custom entrypoint).
    pub path_prepend: Vec<String>,
    /// Use setpriv to drop privileges (when using custom entrypoint).
    pub setpriv: bool,
    /// Unprivileged user name (when using custom entrypoint).
    pub user: Option<String>,
    /// Unprivileged user GID (when using custom entrypoint).
    pub user_gid: Option<u32>,
    /// Unprivileged user UID (when using custom entrypoint).
    pub user_uid: Option<u32>,
    /// Volumes to mount.
    pub volumes: Vec<String>,
    /// Working directory.
    pub workdir: Option<String>,
}

/// Program configuration data.
#[derive(Debug)]
pub struct Config {
    /// Command to run inside the container.
    pub command: Vec<String>,
    /// Selected profile.
    pub profile: Option<String>,
    /// Directory-specific container profiles: key-value pairs where the
    /// earliest entry with a given key is the one in effect.
    pub profiles: Vec<(String, Profile)>,
}

/// Profile registered under a key, by exact string match: the earliest
/// matching entry, or `None` where no key matches.
pub open spec fn spec_lookup(profiles: Seq<(String, Profile)>, key: Seq<char>) -> Option<Profile>
    decreases profiles.len(),
{
    if profiles.len() == 0 {
        None
    } else if profiles[0].0@ == key {
        Some(profiles[0].1)
    } else {
        spec_lookup(profiles.drop_first(), key)
    }
}

/// Whether two profiles agree on every attribute except the values of their
/// environment variables, of which only the names and the presence of a
/// value are compared.
pub open spec fn same_but_env_values(a: Profile, b: Profile) -> bool {
    &&& a.entrypoint == b.entrypoint
    &&& a.image == b.image
    &&& a.path_append == b.path_append
    &&& a.path_prepend == b.path_prepend
    &&& a.setpriv == b.setpriv
    &&& a.user == b.user
    &&& a.user_gid == b.user_gid
    &&& a.user_uid == b.user_uid
    &&& a.volumes == b.volumes
    &&& a.workdir == b.workdir
    &&& a.env@.len() == b.env@.len()
    &&& forall|k: int|
        0 <= k < a.env@.len() ==> (#[trigger] a.env@[k]).0 == b.env@[k].0 && (a.env@[k].1 is Some
            <==> b.env@[k].1 is Some)
}

/// Whether every profile path and every environment-variable value of a
/// profile list is free of expansion markers, so that nothing in it can
/// fail to expand.
pub open spec fn spec_marker_free(ps: Seq<(String, Profile)>) -> bool {
    forall|i: int|
        0 <= i < ps.len() ==> ({
            &&& crate::host::no_expansion_markers((#[trigger] ps[i]).0@)
            &&& forall|k: int|
                0 <= k < ps[i].1.env@.len() ==> (match (#[trigger] ps[i].1.env@[k]).1 {
                    Some(v) => crate::host::no_expansion_markers(v@),
                    None => true,
                })
        })
}

impl Profile {
    /// Get the default entrypoint value.
    pub fn default_entrypoint() -> (r: bool)
        ensures
            r == true,
    {
        true
    }

    /// Get the default setpriv value.
    pub fn default_setpriv() -> (r: bool)
        ensures
            r == true,
    {
        true
    }

    /// Build a profile from parsed fields, filling each absent one with its
    /// default: entrypoint wrapping and privilege dropping are enabled unless
    /// disabled explicitly.
    pub fn from_parts(
        entrypoint: Option<bool>,
        env: Vec<(String, Option<String>)>,
        image: String,
        path_append: Vec<String>,
        path_prepend: Vec<String>,
        setpriv: Option<bool>,
        user: Option<String>,
        user_gid: Option<u32>,
        user_uid: Option<u32>,
        volumes: Vec<String>,
        workdir: Option<String>,
    ) -> (r: Profile)
        ensures
            r.entrypoint == (match entrypoint {
                Some(b) => b,
                None => true,
            }),
            r.setpriv == (match setpriv {
                Some(b) => b,
                None => true,
            }),
            r.env == env,
            r.image == image,
            r.path_append == path_append,
            r.path_prepend == path_prepend,
            r.user == user,
            r.user_gid == user_gid,
            r.user_uid == user_uid,
            r.volumes == volumes,
            r.workdir == workdir,
    {
        Profile {
            entrypoint: match entrypoint {
                Some(b) => b,
                None => Self::default_entrypoint(),
            },
            env,
            image,
            path_append,
            path_prepend,
            setpriv: match setpriv {
                Some(b) => b,
                None => Self::default_setpriv(),
            },
            user,
            user_gid,
            user_uid,
            volumes,
            workdir,
        }
    }
}

impl Default for Profile {
    /// The profile with every attribute absent: entrypoint wrapping and
    /// privilege dropping enabled, everything else empty.
    fn default() -> (r: Self)
        ensures
            r.entrypoint == true,
            r.setpriv == true,
            r.env@ == Seq::<(String, Option<String>)>::empty(),
            r.image@ == Seq::<char>::empty(),
            r.path_append@ == Seq::<String>::empty(),
            r.path_prepend@ == Seq::<String>::empty(),
            r.user is None,
            r.user_gid is None,
            r.user_uid is None,
            r.volumes@ == Seq::<String>::empty(),
            r.workdir is None,
    {
        Profile {
            entrypoint: Self::default_entrypoint(),
            env: Vec::new(),
            image: String::new(),
            path_append: Vec::new(),
            path_prepend: Vec::new(),
            setpriv: Self::default_setpriv(),
            user: None,
            user_gid: None,
            user_uid: None,
            volumes: Vec::new(),
            workdir: None,
        }
    }
}

/// Registry key for a profile whose path expanded to `expanded`: its
/// canonical form where canonicalization succeeded, and otherwise the
/// expanded path itself, so that a directory that does not exist is still
/// usable as a key by exact string match.
pub fn resolve_profile_key(expanded: String, canonical: Option<String>) -> (r: String)
    ensures
        r == (match canonical {
            Some(c) => c,
            None => expanded,
        }),
{
    match canonical {
        Some(c) => c,
        None => expanded,
    }
}

/// Config-file path inside a configuration directory.
pub fn config_path_in(dir: &String) -> (r: String)
    ensures
        r@ == dir@ + "/oci-run/config.yaml"@,
{
    let mut r = dir.clone();
    r.append("/oci-run/config.yaml");
    r
}

impl Config {
    /// Get the default path to the config file, under the per-user
    /// configuration directory, where one can be located.
    pub fn default_config_path() -> (r: Option<String>)
        ensures
            r matches Some(p) ==> exists|d: Seq<char>| p@ == d + "/oci-run/config.yaml"@,
    {
        match host::config_dir() {
            Some(dir) => {
                let p = config_path_in(&dir);
                proof {
                    assert(p@ == dir@ + "/oci-run/config.yaml"@);
                }
                Some(p)
            },
            None => None,
        }
    }

    /// Profile registered under a key, by exact string match.
    pub fn lookup(&self, key: &String) -> (r: Option<&Profile>)
        ensures
            r matches Some(p) ==> spec_lookup(self.profiles@, key@) == Some(*p),
            r is None ==> spec_lookup(self.profiles@, key@) is None,
    {
        let n = self.profiles.len();
        let mut i: usize = 0;
        proof {
            assert(self.profiles@.skip(0) =~= self.profiles@);
        }
        while i < n
            invariant
                n == self.profiles@.len(),
                i <= n,
                spec_lookup(self.profiles@, key@) == spec_lookup(
                    self.profiles@.skip(i as int),
                    key@,
                ),
            decreases n - i,
        {
            proof {
                assert(self.profiles@.skip(i as int)[0] == self.profiles@[i as int]);
            }
            if self.profiles[i].0 == *key {
                return Some(&self.profiles[i].1);
            }
            proof {
                assert(self.profiles@.skip(i as int).drop_first() =~= self.profiles@.skip(
                    i + 1 as int,
                ));
            }
            i = i + 1;
        }
        proof {
            assert(self.profiles@.skip(n as int) =~= Seq::<(String, Profile)>::empty());
        }
        None
    }

    /// Build the configuration in effect from the parsed command-line
    /// options and the profiles read from the config file.
    ///
    /// The command and the selected profile come from the command line
    /// alone. Each profile's environment-variable values and its path have
    /// shell variables expanded; the registry key is the canonicalized
    /// expanded path where the directory exists, and the expanded path
    /// itself otherwise. Later file entries shadow earlier ones with the
    /// same resulting key. The only failure is a shell variable that cannot
    /// be expanded.
    #[verifier::loop_isolation(false)]
    pub fn assemble(cli: crate::cli::Cli, file_profiles: Vec<(String, Profile)>) -> (r: Result<
        Config,
        RunError,
    >)
        ensures
            r matches Ok(c) ==> ({
                &&& c.command == cli.command
                &&& c.profile == cli.profile
                &&& c.profiles@.len() == file_profiles@.len()
                &&& forall|i: int|
                    0 <= i < c.profiles@.len() ==> same_but_env_values(
                        (#[trigger] c.profiles@[i]).1,
                        file_profiles@[file_profiles@.len() - 1 - i].1,
                    )
            }),
            r matches Err(e) ==> e is Expand,
            spec_marker_free(file_profiles@) ==> r is Ok,
    {
        let ghost all = file_profiles@;
        let mut work = file_profiles;
        let mut out: Vec<(String, Profile)> = Vec::new();
        while work.len() > 0
            invariant
                work@ == all.take(work@.len() as int),
                out@.len() + work@.len() == all.len(),
                forall|i: int|
                    0 <= i < out@.len() ==> same_but_env_values(
                        (#[trigger] out@[i]).1,
                        all[all.len() - 1 - i].1,
                    ),
            decreases work@.len(),
        {
            let ghost m = work@.len() as int;
            let entry = work.pop().unwrap();
            proof {
                assert(all.take(m).drop_last() =~= all.take(m - 1));
                assert(all.take(m).last() == all[m - 1]);
            }
            let path = entry.0;
            let profile = entry.1;

            // Expand variables in envar values
            let mut env: Vec<(String, Option<String>)> = Vec::new();
            let mut k: usize = 0;
            while k < profile.env.len()
                invariant
                    k <= profile.env@.len(),
                    env@.len() == k,
                    forall|j: int|
                        0 <= j < k ==> (#[trigger] env@[j]).0 == profile.env@[j].0 && (env@[j].1
                            is Some <==> profile.env@[j].1 is Some),
                decreases profile.env@.len() - k,
            {
                let name = profile.env[k].0.clone();
                let value = match &profile.env[k].1 {
                    Some(v) => match host::expand_full(v) {
                        Ok(e) => Some(e),
                        Err(msg) => {
                            proof {
                                assert(!spec_marker_free(all)) by {
                                    if spec_marker_free(all) {
                                        assert(match (all[m - 1]).1.env@[k as int].1 {
                                            Some(vv) => host::no_expansion_markers(vv@),
                                            None => true,
                                        });
                                        assert(false);
                                    }
                                }
                            }
                            return Err(RunError::Expand(msg));
                        },
                    },
                    None => None,
                };
                env.push((name, value));
                k = k + 1;
            }
            let profile = Profile { env, ..profile };

            // Expand variables in the profile path
            let expanded = match host::expand_full(&path) {
                Ok(e) => e,
                Err(msg) => {
                    proof {
                        assert(!spec_marker_free(all)) by {
                            if spec_marker_free(all) {
                                assert(host::no_expansion_markers((all[m - 1]).0@));
                                assert(false);
                            }
                        }
                    }
                    return Err(RunError::Expand(msg));
                },
            };

            // Try to canonicalize the path before adding the profile
            let key = resolve_profile_key(expanded.clone(), host::canonicalize_path(&expanded));
            out.push((key, profile));
        }
        Ok(Config { command: cli.command, profile: cli.profile, profiles: out })
    }
}

impl Default for Config {
    /// The empty configuration: no command, no selected profile, no
    /// registered profiles.
    fn default() -> (r: Self)
        ensures
            r.command@ == Seq::<String>::empty(),
            r.profile is None,
            r.profiles@ == Seq::<(String, Profile)>::empty(),
    {
        Config { command: Vec::new(), profile: None, profiles: Vec::new() }
    }
}

} // verus!
