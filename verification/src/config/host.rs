//! What a client learns from the host it runs on.

use vstd::prelude::*;
use vstd::string::*;

use crate::config::keys::{ENV_CONFIG_FILE, ENV_CONF_DIR, ENV_HOME, PROPERTIES_FILENAME};
use crate::config::settings::{or, value_at, Settings};
use crate::text::{chars_of, string_views};

verus! {

/// The environment of the process, and the host under it.
pub struct HostEnv {
    /// The environment variables.
    pub vars: Settings,
    /// The number of cores the process may use, where the host tells it.
    pub cores: Option<usize>,
    /// Whether the host runs Linux.
    pub linux: bool,
}

/// The map that a list of names and values denotes: a later value replaces an
/// earlier one.
pub open spec fn pairs_map(v: Seq<(String, String)>) -> Map<Seq<char>, Seq<char>>
    decreases v.len(),
{
    if v.len() == 0 {
        Map::empty()
    } else {
        pairs_map(v.drop_last()).insert(v.last().0@, v.last().1@)
    }
}

impl HostEnv {
    /// A host with these environment variables and properties.
    pub fn new(vars: &Vec<(String, String)>, cores: Option<usize>, linux: bool) -> (r: Self)
        ensures
            r.vars@ == pairs_map(vars@),
            r.cores == cores,
            r.linux == linux,
    {
        let mut s: Settings = Settings::new();
        let mut i: usize = 0;
        proof {
            assert(vars@.take(0) =~= Seq::<(String, String)>::empty());
        }
        while i < vars.len()
            invariant
                i <= vars@.len(),
                s@ == pairs_map(vars@.take(i as int)),
            decreases vars@.len() - i,
        {
            proof {
                assert(vars@.take(i + 1).drop_last() =~= vars@.take(i as int));
                assert(vars@.take(i + 1).last() == vars@[i as int]);
            }
            s.insert(vars[i].0.clone(), vars[i].1.clone());
            i = i + 1;
        }
        proof {
            assert(vars@.take(i as int) =~= vars@);
        }
        HostEnv { vars: s, cores, linux }
    }
}

/// The user who is logged in: `USER`, else `USERNAME`, else `unknown`.
pub open spec fn login_name(vars: Map<Seq<char>, Seq<char>>) -> Seq<char> {
    or(value_at(vars, "USER"@), or(value_at(vars, "USERNAME"@), "unknown"@))
}

/// The path of `name` in the directory `dir`: a `/` stands between them unless
/// `dir` is empty or ends with one.
pub open spec fn path_join(dir: Seq<char>, name: Seq<char>) -> Seq<char> {
    if dir.len() == 0 || dir.last() == '/' {
        dir + name
    } else {
        dir.push('/') + name
    }
}

/// The path of `name` in the directory `dir`.
pub fn join(dir: &str, name: &str) -> (r: String)
    ensures
        r@ == path_join(dir@, name@),
{
    let cs: Vec<char> = chars_of(dir);
    let mut out: String = dir.to_owned();
    if cs.len() > 0 && cs[cs.len() - 1] != '/' {
        out.push('/');
    }
    out.append(name);
    out
}

/// The value as a list of at most one item.
pub open spec fn items(o: Option<Seq<char>>) -> Seq<Seq<char>> {
    match o {
        Some(v) => seq![v],
        None => Seq::empty(),
    }
}

/// The path in `o`, extended by `f`.
pub open spec fn extended(
    o: Option<Seq<char>>,
    f: spec_fn(Seq<char>) -> Seq<char>,
) -> Option<Seq<char>> {
    match o {
        Some(v) => Some(f(v)),
        None => None,
    }
}

/// The home directory of the user.
pub open spec fn home_dir(vars: Map<Seq<char>, Seq<char>>) -> Option<Seq<char>> {
    match value_at(vars, "HOME"@) {
        Some(v) => Some(v),
        None => value_at(vars, "USERPROFILE"@),
    }
}

/// Where the configuration file is looked for, in this order: at
/// `$GOOSEFS_CONFIG_FILE`; in `$GOOSEFS_CONF_DIR`; in `conf` below
/// `$GOOSEFS_HOME`; in `.goosefs` below the home directory; in `/etc/goosefs`.
pub open spec fn candidates(vars: Map<Seq<char>, Seq<char>>) -> Seq<Seq<char>> {
    let file = PROPERTIES_FILENAME@;
    items(value_at(vars, ENV_CONFIG_FILE@)) + items(
        extended(value_at(vars, ENV_CONF_DIR@), |d: Seq<char>| path_join(d, file)),
    ) + items(
        extended(
            value_at(vars, ENV_HOME@),
            |d: Seq<char>| path_join(path_join(d, "conf"@), file),
        ),
    ) + items(
        extended(home_dir(vars), |d: Seq<char>| path_join(path_join(d, ".goosefs"@), file)),
    ) + seq![path_join("/etc/goosefs"@, file)]
}

/// The home directory of the user.
pub fn dirs_next_home(host: &HostEnv) -> (r: Option<&str>)
    ensures
        match r {
            Some(v) => home_dir(host.vars@) == Some(v@),
            None => home_dir(host.vars@) is None,
        },
{
    match host.vars.get("HOME") {
        Some(v) => Some(v),
        None => host.vars.get("USERPROFILE"),
    }
}

/// The paths at which the configuration file is looked for, first choice first.
pub fn config_file_candidates(host: &HostEnv) -> (r: Vec<String>)
    ensures
        string_views(r@) == candidates(host.vars@),
{
    let mut out: Vec<String> = Vec::new();
    let ghost vars = host.vars@;
    let ghost file = PROPERTIES_FILENAME@;
    let ghost s1 = items(value_at(vars, ENV_CONFIG_FILE@));
    let ghost s2 = items(
        extended(value_at(vars, ENV_CONF_DIR@), |d: Seq<char>| path_join(d, file)),
    );
    let ghost s3 = items(
        extended(
            value_at(vars, ENV_HOME@),
            |d: Seq<char>| path_join(path_join(d, "conf"@), file),
        ),
    );
    let ghost s4 = items(
        extended(home_dir(vars), |d: Seq<char>| path_join(path_join(d, ".goosefs"@), file)),
    );
    if let Some(p) = host.vars.get(ENV_CONFIG_FILE) {
        out.push(p.to_owned());
    }
    proof {
        assert(string_views(out@) =~= s1);
    }
    if let Some(d) = host.vars.get(ENV_CONF_DIR) {
        out.push(join(d, PROPERTIES_FILENAME));
    }
    proof {
        assert(string_views(out@) =~= s1 + s2);
    }
    if let Some(d) = host.vars.get(ENV_HOME) {
        out.push(join(&join(d, "conf"), PROPERTIES_FILENAME));
    }
    proof {
        assert(string_views(out@) =~= s1 + s2 + s3);
    }
    if let Some(d) = dirs_next_home(host) {
        out.push(join(&join(d, ".goosefs"), PROPERTIES_FILENAME));
    }
    proof {
        assert(string_views(out@) =~= s1 + s2 + s3 + s4);
    }
    out.push(join("/etc/goosefs", PROPERTIES_FILENAME));
    proof {
        assert(string_views(out@) =~= candidates(vars));
    }
    out
}

/// The first of the paths at which the configuration file is looked for that
/// exists. `present` tells of each of them, in their order, whether it does.
pub fn discover_config_file(host: &HostEnv, present: &Vec<bool>) -> (r: Option<String>)
    requires
        present@.len() == candidates(host.vars@).len(),
    ensures
        match r {
            Some(p) => exists|i: int|
                0 <= i < present@.len() && #[trigger] present@[i] && p@ == candidates(host.vars@)[i]
                    && forall|j: int| 0 <= j < i ==> !#[trigger] present@[j],
            None => forall|j: int| 0 <= j < present@.len() ==> !#[trigger] present@[j],
        },
{
    let paths: Vec<String> = config_file_candidates(host);
    proof {
        assert(string_views(paths@).len() == paths@.len());
    }
    let mut i: usize = 0;
    while i < paths.len()
        invariant
            i <= paths@.len() == present@.len(),
            string_views(paths@) == candidates(host.vars@),
            forall|j: int| 0 <= j < i ==> !#[trigger] present@[j],
        decreases paths@.len() - i,
    {
        if present[i] {
            proof {
                assert(string_views(paths@)[i as int] == paths@[i as int]@);
                assert(present@[i as int]);
            }
            return Some(paths[i].clone());
        }
        i = i + 1;
    }
    None
}

/// The user is the one that `USER` names, else the one that `USERNAME` names.
pub proof fn law_login_name(vars: Map<Seq<char>, Seq<char>>)
    ensures
        vars.contains_key("USER"@) ==> login_name(vars) == vars["USER"@],
        !vars.contains_key("USER"@) && vars.contains_key("USERNAME"@) ==> login_name(vars)
            == vars["USERNAME"@],
        !vars.contains_key("USER"@) && !vars.contains_key("USERNAME"@) ==> login_name(vars)
            == "unknown"@,
{
}

/// The last value of a variable counts, and the others do not change it.
pub proof fn law_last_variable_counts(v: Seq<(String, String)>, name: String, value: String)
    ensures
        pairs_map(v.push((name, value)))[name@] == value@,
        pairs_map(v.push((name, value))).contains_key(name@),
        forall|k: Seq<char>|
            k != name@ ==> (#[trigger] pairs_map(v.push((name, value))).contains_key(k)
                <==> pairs_map(v).contains_key(k)),
        forall|k: Seq<char>|
            k != name@ && pairs_map(v).contains_key(k) ==> #[trigger] pairs_map(
                v.push((name, value)),
            )[k] == pairs_map(v)[k],
{
    assert(v.push((name, value)).drop_last() =~= v);
}

/// A file in a directory has the name of the directory, one `/` and its own name.
pub proof fn law_path_join(dir: Seq<char>, name: Seq<char>)
    requires
        dir.len() > 0,
        dir[dir.len() - 1] != '/',
    ensures
        path_join(dir, name) == dir + seq!['/'] + name,
        path_join(dir + seq!['/'], name) == dir + seq!['/'] + name,
{
    assert(dir.push('/') =~= dir + seq!['/']);
}

/// The file that `GOOSEFS_CONFIG_FILE` names is looked for first and the one below
/// `/etc/goosefs` last; those of the other variables come between them, in this order:
/// `GOOSEFS_CONF_DIR`, `GOOSEFS_HOME`, `HOME`.
pub proof fn law_candidates_in_order(
    vars: Map<Seq<char>, Seq<char>>,
    conf: Seq<char>,
    install: Seq<char>,
    home: Seq<char>,
)
    requires
        vars.contains_key("GOOSEFS_CONFIG_FILE"@),
        vars.contains_key("GOOSEFS_CONF_DIR"@) && vars["GOOSEFS_CONF_DIR"@] == conf,
        vars.contains_key("GOOSEFS_HOME"@) && vars["GOOSEFS_HOME"@] == install,
        vars.contains_key("HOME"@) && vars["HOME"@] == home,
        conf.len() > 0 && conf[conf.len() - 1] != '/',
        install.len() > 0 && install[install.len() - 1] != '/',
        home.len() > 0 && home[home.len() - 1] != '/',
    ensures
        ({
            let c = candidates(vars);
            &&& c.len() == 5
            &&& c[0] == vars["GOOSEFS_CONFIG_FILE"@]
            &&& c[1] == conf + "/goosefs-site.properties"@
            &&& c[2] == install + "/conf/goosefs-site.properties"@
            &&& c[3] == home + "/.goosefs/goosefs-site.properties"@
            &&& c[4] == "/etc/goosefs/goosefs-site.properties"@
        }),
{
    reveal_strlit("goosefs-site.properties");
    reveal_strlit("/goosefs-site.properties");
    reveal_strlit("/conf/goosefs-site.properties");
    reveal_strlit("/.goosefs/goosefs-site.properties");
    reveal_strlit("/etc/goosefs/goosefs-site.properties");
    reveal_strlit("conf");
    reveal_strlit(".goosefs");
    reveal_strlit("/etc/goosefs");
    let c = candidates(vars);
    assert(c[1] =~= conf + "/goosefs-site.properties"@);
    assert(c[2] =~= install + "/conf/goosefs-site.properties"@);
    assert(c[3] =~= home + "/.goosefs/goosefs-site.properties"@);
    assert(c[4] =~= "/etc/goosefs/goosefs-site.properties"@);
}

/// Without these variables the file below `/etc/goosefs` is the only one that is looked for.
pub proof fn law_last_candidate_is_always_there(vars: Map<Seq<char>, Seq<char>>)
    ensures
        candidates(vars).len() > 0,
        candidates(vars)[candidates(vars).len() - 1] == "/etc/goosefs/goosefs-site.properties"@,
        vars =~= Map::empty() ==> candidates(vars).len() == 1,
{
    reveal_strlit("goosefs-site.properties");
    reveal_strlit("/etc/goosefs/goosefs-site.properties");
    reveal_strlit("/etc/goosefs");
    let c = candidates(vars);
    assert(c[c.len() - 1] =~= "/etc/goosefs/goosefs-site.properties"@);
}

} // verus!
