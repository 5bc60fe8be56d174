//! Construction of the container-engine invocation from a profile.

use vstd::prelude::*;

use crate::config::Config;
use crate::config::Profile;
use crate::config::spec_lookup;
use crate::errors::RunError;
use crate::host;
use crate::host::no_expansion_markers;
use crate::text::join_colon;
use crate::text::spec_decimal;
use crate::text::spec_join;
use crate::text::u32_string;

verus! {

/// Views of a sequence of strings.
pub open spec fn views(v: Seq<String>) -> Seq<Seq<char>> {
    v.map_values(|s: String| s@)
}

/// The fixed first arguments of every invocation.
pub open spec fn spec_base_args() -> Seq<Seq<char>> {
    seq!["docker"@, "container"@, "run"@, "--init"@, "--interactive"@, "--rm"@]
}

/// `--tty` when standard input is a terminal.
pub open spec fn spec_tty_args(is_tty: bool) -> Seq<Seq<char>> {
    if is_tty {
        seq!["--tty"@]
    } else {
        Seq::empty()
    }
}

/// Privilege dropping: the variable is empty when setpriv is enabled and
/// `1` when it is disabled.
pub open spec fn spec_setpriv_args(setpriv: bool) -> Seq<Seq<char>> {
    seq![
        "--env=DISABLE_SETPRIV="@ + (if setpriv {
            Seq::<char>::empty()
        } else {
            "1"@
        }),
    ]
}

/// The unprivileged user name, where one is set.
pub open spec fn spec_user_args(user: Option<String>) -> Seq<Seq<char>> {
    match user {
        Some(u) => seq!["--env=USER_NAME="@ + u@],
        None => Seq::empty(),
    }
}

/// The unprivileged user GID: the profile's override, or the effective GID.
pub open spec fn spec_gid_args(user_gid: Option<u32>, gid: u32) -> Seq<Seq<char>> {
    seq![
        "--env=USER_GID="@ + spec_decimal((match user_gid {
            Some(g) => g,
            None => gid,
        }) as int),
    ]
}

/// The unprivileged user UID: the profile's override, or the effective UID.
pub open spec fn spec_uid_args(user_uid: Option<u32>, uid: u32) -> Seq<Seq<char>> {
    seq![
        "--env=USER_UID="@ + spec_decimal((match user_uid {
            Some(u) => u,
            None => uid,
        }) as int),
    ]
}

/// Directories appended to `PATH`, joined by `:`, where any are given.
pub open spec fn spec_path_post_args(path_append: Seq<String>) -> Seq<Seq<char>> {
    if path_append.len() > 0 {
        seq!["--env=USER_PATH_POST="@ + spec_join(views(path_append), ":"@)]
    } else {
        Seq::empty()
    }
}

/// Directories prepended to `PATH`, joined by `:`, where any are given.
pub open spec fn spec_path_pre_args(path_prepend: Seq<String>) -> Seq<Seq<char>> {
    if path_prepend.len() > 0 {
        seq!["--env=USER_PATH_PRE="@ + spec_join(views(path_prepend), ":"@)]
    } else {
        Seq::empty()
    }
}

/// `--env` argument for one profile environment variable: with `=` and the
/// value where one is given, and the bare name otherwise.
pub open spec fn spec_env_arg(e: (String, Option<String>)) -> Seq<char> {
    match e.1 {
        Some(v) => "--env="@ + e.0@ + "="@ + v@,
        None => "--env="@ + e.0@,
    }
}

/// `--env` arguments for the profile environment variables, in order.
pub open spec fn spec_env_args(env: Seq<(String, Option<String>)>) -> Seq<Seq<char>> {
    env.map_values(|e: (String, Option<String>)| spec_env_arg(e))
}

/// The working directory, where one is set.
pub open spec fn spec_workdir_args(workdir: Option<String>) -> Seq<Seq<char>> {
    match workdir {
        Some(w) => seq!["--workdir="@ + w@],
        None => Seq::empty(),
    }
}

/// `--volume` arguments for the expanded volume specifications, in order.
pub open spec fn spec_volume_args(volumes: Seq<Seq<char>>) -> Seq<Seq<char>> {
    volumes.map_values(|v: Seq<char>| "--volume="@ + v)
}

/// The custom entrypoint: the script mounted read-only into the container
/// and selected as the entrypoint, where entrypoint wrapping is enabled.
pub open spec fn spec_entrypoint_args(entrypoint: bool, script: Seq<char>) -> Seq<Seq<char>> {
    if entrypoint {
        seq![
            "--volume="@ + script + ":/usr/local/bin/oci-entrypoint:ro"@,
            "--entrypoint=/usr/local/bin/oci-entrypoint"@,
        ]
    } else {
        Seq::empty()
    }
}

/// The full argument list of the container-engine invocation, in order:
/// the fixed `docker container run` preamble, terminal allocation,
/// privilege-drop controls, user identity, `PATH` segments, environment
/// variables, working directory, volume mounts, the custom entrypoint, and
/// finally the image and the command to run inside the container.
pub open spec fn spec_args(
    profile: Profile,
    command: Seq<String>,
    is_tty: bool,
    uid: u32,
    gid: u32,
    volumes: Seq<Seq<char>>,
    script: Seq<char>,
) -> Seq<Seq<char>> {
    spec_base_args() + spec_tty_args(is_tty) + spec_setpriv_args(profile.setpriv)
        + spec_user_args(profile.user) + spec_gid_args(profile.user_gid, gid) + spec_uid_args(
        profile.user_uid,
        uid,
    ) + spec_path_post_args(profile.path_append@) + spec_path_pre_args(profile.path_prepend@)
        + spec_env_args(profile.env@) + spec_workdir_args(profile.workdir) + spec_volume_args(
        volumes,
    ) + spec_entrypoint_args(profile.entrypoint, script) + seq!["--"@, profile.image@] + views(
        command,
    )
}

/// Pushing a string extends the views of a sequence of strings by its view.
proof fn lemma_views_push(s: Seq<String>, x: String)
    ensures
        views(s.push(x)) == views(s).push(x@),
{
    assert(views(s.push(x)) =~= views(s).push(x@));
}

/// Append the `--env` arguments for the profile environment variables.
#[verifier::loop_isolation(false)]
fn push_env_args(cmd: &mut Vec<String>, env: &Vec<(String, Option<String>)>)
    ensures
        views(final(cmd)@) == views(old(cmd)@) + spec_env_args(env@),
{
    let mut j: usize = 0;
    assert(views(cmd@) =~~= views(cmd@) + spec_env_args(env@.take(0)));
    while j < env.len()
        invariant
            j <= env@.len(),
            views(cmd@) == views(old(cmd)@) + spec_env_args(env@.take(j as int)),
        decreases env@.len() - j,
    {
        let mut arg = "--env=".to_owned();
        arg.append(env[j].0.as_str());
        if let Some(value) = &env[j].1 {
            arg.append("=");
            arg.append(value.as_str());
        }
        proof {
            assert(arg@ =~= spec_env_arg(env@[j as int]));
        }
        let ghost snap = arg;
        let ghost prev = cmd@;
        cmd.push(arg);
        proof {
            lemma_views_push(prev, snap);
            assert(env@.take(j + 1 as int) =~= env@.take(j as int).push(env@[j as int]));
            assert(spec_env_args(env@.take(j as int).push(env@[j as int])) =~= spec_env_args(
                env@.take(j as int),
            ).push(spec_env_arg(env@[j as int])));
            assert(views(cmd@) =~= views(old(cmd)@) + spec_env_args(env@.take(j + 1 as int)));
        }
        j = j + 1;
    }
    proof {
        assert(env@.take(env@.len() as int) =~= env@);
    }
}

/// Append the `--volume` arguments for the expanded volume specifications.
#[verifier::loop_isolation(false)]
fn push_volume_args(cmd: &mut Vec<String>, volumes: &Vec<String>)
    ensures
        views(final(cmd)@) == views(old(cmd)@) + spec_volume_args(views(volumes@)),
{
    let mut j: usize = 0;
    assert(views(cmd@) =~~= views(cmd@) + spec_volume_args(views(volumes@).take(0)));
    while j < volumes.len()
        invariant
            j <= volumes@.len(),
            views(cmd@) == views(old(cmd)@) + spec_volume_args(views(volumes@).take(j as int)),
        decreases volumes@.len() - j,
    {
        let mut arg = "--volume=".to_owned();
        arg.append(volumes[j].as_str());
        let ghost snap = arg;
        let ghost prev = cmd@;
        cmd.push(arg);
        proof {
            lemma_views_push(prev, snap);
            let vs = views(volumes@);
            assert(snap@ == "--volume="@ + vs[j as int]);
            assert(vs.take(j + 1 as int) =~= vs.take(j as int).push(vs[j as int]));
            assert(spec_volume_args(vs.take(j as int).push(vs[j as int])) =~= spec_volume_args(
                vs.take(j as int),
            ).push("--volume="@ + vs[j as int]));
            assert(views(cmd@) =~= views(old(cmd)@) + spec_volume_args(vs.take(j + 1 as int)));
        }
        j = j + 1;
    }
    proof {
        assert(views(volumes@).take(volumes@.len() as int) =~= views(volumes@));
    }
}

/// Append the command to run inside the container.
#[verifier::loop_isolation(false)]
fn push_command_args(cmd: &mut Vec<String>, command: &Vec<String>)
    ensures
        views(final(cmd)@) == views(old(cmd)@) + views(command@),
{
    let mut j: usize = 0;
    assert(views(cmd@) =~~= views(cmd@) + views(command@.take(0)));
    while j < command.len()
        invariant
            j <= command@.len(),
            views(cmd@) == views(old(cmd)@) + views(command@.take(j as int)),
        decreases command@.len() - j,
    {
        let next = command[j].clone();
        let ghost snap = next;
        let ghost prev = cmd@;
        cmd.push(next);
        proof {
            lemma_views_push(prev, snap);
            assert(command@.take(j + 1 as int) =~= command@.take(j as int).push(
                command@[j as int],
            ));
            assert(views(command@.take(j as int).push(command@[j as int])) =~= views(
                command@.take(j as int),
            ).push(command@[j as int]@));
            assert(views(cmd@) =~= views(old(cmd)@) + views(command@.take(j + 1 as int)));
        }
        j = j + 1;
    }
    proof {
        assert(command@.take(command@.len() as int) =~= command@);
    }
}

/// Build the argument list of the container-engine invocation for a
/// profile. The volume specifications are taken already expanded, and the
/// entrypoint script path is read only where entrypoint wrapping is
/// enabled.
#[verifier::rlimit(50)]
pub fn build_command(
    profile: &Profile,
    command: &Vec<String>,
    is_tty: bool,
    uid: u32,
    gid: u32,
    volumes: &Vec<String>,
    script: &String,
) -> (r: Vec<String>)
    ensures
        views(r@) == spec_args(*profile, command@, is_tty, uid, gid, views(volumes@), script@),
{
    let mut cmd: Vec<String> = Vec::new();

    // Fixed preamble
    cmd.push("docker".to_owned());
    cmd.push("container".to_owned());
    cmd.push("run".to_owned());
    cmd.push("--init".to_owned());
    cmd.push("--interactive".to_owned());
    cmd.push("--rm".to_owned());
    assert(views(cmd@) =~~= spec_base_args());

    // Terminal allocation
    if is_tty {
        cmd.push("--tty".to_owned());
    }
    let ghost pre_setpriv = spec_base_args() + spec_tty_args(is_tty);
    assert(views(cmd@) =~~= pre_setpriv);

    // Privilege dropping
    let mut arg = "--env=DISABLE_SETPRIV=".to_owned();
    if !profile.setpriv {
        arg.append("1");
    }
    cmd.push(arg);
    let ghost pre_user = pre_setpriv + spec_setpriv_args(profile.setpriv);
    assert(views(cmd@) =~~= pre_user);

    if let Some(user) = &profile.user {
        let mut arg = "--env=USER_NAME=".to_owned();
        arg.append(user.as_str());
        cmd.push(arg);
    }
    let ghost pre_gid = pre_user + spec_user_args(profile.user);
    assert(views(cmd@) =~~= pre_gid);

    let gid_value = match profile.user_gid {
        Some(g) => g,
        None => gid,
    };
    let mut arg = "--env=USER_GID=".to_owned();
    let gid_digits = u32_string(gid_value);
    arg.append(gid_digits.as_str());
    cmd.push(arg);
    let ghost pre_uid = pre_gid + spec_gid_args(profile.user_gid, gid);
    assert(views(cmd@) =~~= pre_uid);

    let uid_value = match profile.user_uid {
        Some(u) => u,
        None => uid,
    };
    let mut arg = "--env=USER_UID=".to_owned();
    let uid_digits = u32_string(uid_value);
    arg.append(uid_digits.as_str());
    cmd.push(arg);
    let ghost pre_post = pre_uid + spec_uid_args(profile.user_uid, uid);
    assert(views(cmd@) =~~= pre_post);

    // PATH configuration
    if profile.path_append.len() > 0 {
        let mut arg = "--env=USER_PATH_POST=".to_owned();
        let joined = join_colon(&profile.path_append);
        arg.append(joined.as_str());
        cmd.push(arg);
    }
    let ghost pre_pre = pre_post + spec_path_post_args(profile.path_append@);
    assert(views(cmd@) =~~= pre_pre);

    if profile.path_prepend.len() > 0 {
        let mut arg = "--env=USER_PATH_PRE=".to_owned();
        let joined = join_colon(&profile.path_prepend);
        arg.append(joined.as_str());
        cmd.push(arg);
    }
    let ghost pre_env = pre_pre + spec_path_pre_args(profile.path_prepend@);
    assert(views(cmd@) =~~= pre_env);

    // Environment variables
    push_env_args(&mut cmd, &profile.env);
    let ghost pre_workdir = pre_env + spec_env_args(profile.env@);
    assert(views(cmd@) =~~= pre_workdir);

    // Workdir
    if let Some(workdir) = &profile.workdir {
        let mut arg = "--workdir=".to_owned();
        arg.append(workdir.as_str());
        cmd.push(arg);
    }
    let ghost pre_volumes = pre_workdir + spec_workdir_args(profile.workdir);
    assert(views(cmd@) =~~= pre_volumes);

    // Volume mounts
    push_volume_args(&mut cmd, volumes);
    let ghost pre_entry = pre_volumes + spec_volume_args(views(volumes@));
    assert(views(cmd@) =~~= pre_entry);

    // Custom entrypoint
    if profile.entrypoint {
        let mut arg = "--volume=".to_owned();
        arg.append(script.as_str());
        arg.append(":/usr/local/bin/oci-entrypoint:ro");
        cmd.push(arg);
        cmd.push("--entrypoint=/usr/local/bin/oci-entrypoint".to_owned());
    }
    let ghost pre_tail = pre_entry + spec_entrypoint_args(profile.entrypoint, script@);
    assert(views(cmd@) =~~= pre_tail);

    // Image and inner command arguments
    cmd.push("--".to_owned());
    cmd.push(profile.image.clone());
    let ghost pre_command = pre_tail + seq!["--"@, profile.image@];
    assert(views(cmd@) =~~= pre_command);

    push_command_args(&mut cmd, command);
    proof {
        assert(views(cmd@) =~~= spec_args(
            *profile,
            command@,
            is_tty,
            uid,
            gid,
            views(volumes@),
            script@,
        ));
    }
    cmd
}

/// Expand shell variables in each volume specification, in order. A
/// specification without a `$` and without a leading `~` stays unchanged;
/// the first one that cannot be expanded fails the whole list.
#[verifier::loop_isolation(false)]
pub fn expand_volumes(volumes: &Vec<String>) -> (r: Result<Vec<String>, RunError>)
    ensures
        r matches Ok(evs) ==> ({
            &&& evs@.len() == volumes@.len()
            &&& forall|i: int|
                0 <= i < volumes@.len() && no_expansion_markers(volumes@[i]@) ==> (
                #[trigger] evs@[i])@ == volumes@[i]@
        }),
        r matches Err(e) ==> (e is Expand && volumes@.len() > 0),
        (forall|i: int|
            0 <= i < volumes@.len() ==> no_expansion_markers((#[trigger] volumes@[i])@)) ==> r
            is Ok,
{
    let mut out: Vec<String> = Vec::new();
    let mut j: usize = 0;
    while j < volumes.len()
        invariant
            j <= volumes@.len(),
            out@.len() == j,
            forall|i: int|
                0 <= i < j && no_expansion_markers(volumes@[i]@) ==> (#[trigger] out@[i])@
                    == volumes@[i]@,
        decreases volumes@.len() - j,
    {
        match host::expand_full(&volumes[j]) {
            Ok(e) => out.push(e),
            Err(m) => return Err(RunError::Expand(m)),
        }
        j = j + 1;
    }
    Ok(out)
}

/// Entrypoint-script path inside a cache directory.
pub fn entrypoint_script_path(cache: &String) -> (r: String)
    ensures
        r@ == cache@ + "/oci-run/oci-entrypoint"@,
{
    let mut r = cache.clone();
    r.append("/oci-run/oci-entrypoint");
    r
}

/// Path of the entrypoint script that will be mounted in the container,
/// under the per-user cache directory, where one can be located.
pub fn entrypoint_script() -> (r: Option<String>)
    ensures
        r matches Some(p) ==> exists|d: Seq<char>| p@ == d + "/oci-run/oci-entrypoint"@,
{
    match host::cache_dir() {
        Some(dir) => {
            let p = entrypoint_script_path(&dir);
            proof {
                assert(p@ == dir@ + "/oci-run/oci-entrypoint"@);
            }
            Some(p)
        },
        None => None,
    }
}

/// Profile key that a launch from a directory uses: the selected profile
/// override where one is set, and the current directory otherwise.
pub open spec fn spec_selected_key(config: Config, current_dir: String) -> Seq<char> {
    match config.profile {
        Some(p) => p@,
        None => current_dir@,
    }
}

/// Build the full container-engine argument list for the profile that the
/// configuration selects for a directory.
///
/// The profile is looked up under the selected key by exact string match;
/// a missing profile is the error naming the attempted path. Volume
/// specifications are expanded, and where entrypoint wrapping is enabled
/// the entrypoint script is placed under the per-user cache directory. On
/// success the arguments are exactly those of `spec_args` for the ambient
/// terminal state, process identity, expanded volumes and script path.
pub fn run_args(config: &Config, current_dir: &String) -> (r: Result<Vec<String>, RunError>)
    ensures
        (match r {
            Err(RunError::NoProfile(p)) => p@ == spec_selected_key(*config, *current_dir)
                && spec_lookup(config.profiles@, p@) is None,
            _ => true,
        }),
        spec_lookup(config.profiles@, spec_selected_key(*config, *current_dir)) is None
            <==> r matches Err(RunError::NoProfile(_)),
        (match r {
            Err(RunError::NoCacheDir) => spec_lookup(
                config.profiles@,
                spec_selected_key(*config, *current_dir),
            ) matches Some(pr) && pr.entrypoint,
            _ => true,
        }),
        (match r {
            Err(RunError::Expand(_)) => spec_lookup(
                config.profiles@,
                spec_selected_key(*config, *current_dir),
            ) matches Some(pr) && pr.volumes@.len() > 0,
            _ => true,
        }),
        (match spec_lookup(config.profiles@, spec_selected_key(*config, *current_dir)) {
            Some(pr) => (!pr.entrypoint && forall|i: int|
                0 <= i < pr.volumes@.len() ==> no_expansion_markers(
                    (#[trigger] pr.volumes@[i])@,
                )) ==> r is Ok,
            None => true,
        }),
        (match r {
            Ok(args) => spec_lookup(config.profiles@, spec_selected_key(*config, *current_dir))
                matches Some(pr) && exists|
                is_tty: bool,
                uid: u32,
                gid: u32,
                vols: Seq<Seq<char>>,
                script: Seq<char>,
            |
                vols.len() == pr.volumes@.len() && views(args@) == #[trigger] spec_args(
                    pr,
                    config.command@,
                    is_tty,
                    uid,
                    gid,
                    vols,
                    script,
                ),
            _ => true,
        }),
{
    let key: String = match &config.profile {
        Some(p) => p.clone(),
        None => current_dir.clone(),
    };
    let profile = match config.lookup(&key) {
        Some(p) => p,
        None => {
            return Err(RunError::NoProfile(key));
        },
    };

    let expanded = match expand_volumes(&profile.volumes) {
        Ok(v) => v,
        Err(e) => {
            return Err(e);
        },
    };

    // Detect if stdin is coming from a terminal or not
    let is_tty = host::stdin_is_tty();

    // Effective process identity, used where the profile gives no override
    let uid = host::effective_uid();
    let gid = host::effective_gid();

    // Path to the entrypoint script that will be mounted in the container
    let script: String = if profile.entrypoint {
        match host::cache_dir() {
            Some(dir) => entrypoint_script_path(&dir),
            None => {
                return Err(RunError::NoCacheDir);
            },
        }
    } else {
        String::new()
    };

    let args = build_command(profile, &config.command, is_tty, uid, gid, &expanded, &script);
    proof {
        assert(views(expanded@).len() == profile.volumes@.len());
        assert(views(args@) == spec_args(
            *profile,
            config.command@,
            is_tty,
            uid,
            gid,
            views(expanded@),
            script@,
        ));
    }
    Ok(args)
}

} // verus!
