//! The root configuration and its resolution: command-line overrides win
//! over the on-disk document, which wins over compiled-in defaults; the
//! work directory falls back to the document's own containing directory;
//! and a configuration whose mode resolves to `Invalid`, or that resolves
//! no work directory at all, fails validation.

use vstd::prelude::*;

use crate::balena_config::{BalenaConfig, ImageType};
use crate::debug_config::DebugConfig;
use crate::error::{MigError, MigErrorKind};
use crate::fsutil::{canonicalize, path_append, path_is_absolute, spec_is_absolute};
use crate::migrate_config::{spec_mode_of_str, MigMode, MigrateConfig};
use crate::yaml::{
    balena_config_from_yaml, debug_config_from_yaml, migrate_config_from_yaml, node_field,
    spec_balena_matches, spec_balena_ok, spec_debug_matches, spec_debug_ok, spec_migrate_matches,
    spec_migrate_ok, spec_sub, yaml_parse_tree, yaml_tree_of, YamlNode,
};

verus! {

/// The root configuration: three cooperating sub-trees.
#[derive(Clone, Debug)]
pub struct Config {
    pub migrate: MigrateConfig,
    pub balena: BalenaConfig,
    pub debug: DebugConfig,
}

/// The command-line overrides this crate consumes. Parsing the command
/// line itself is outside this crate; these are the resolved values.
#[derive(Clone, Debug)]
pub struct CliOptions {
    pub work_dir: Option<String>,
    pub mode: Option<String>,
    pub image: Option<String>,
    pub config: Option<String>,
}

impl CliOptions {
    /// No overrides at all.
    pub fn none() -> (r: CliOptions)
        ensures
            r.work_dir is None,
            r.mode is None,
            r.image is None,
            r.config is None,
    {
        CliOptions { work_dir: None, mode: None, image: None, config: None }
    }
}

/// The work directory that resolution must produce: the command-line
/// override wins, then the document-specified work directory, then the
/// document's own containing directory; with none of the three,
/// resolution fails rather than silently defaulting.
pub open spec fn spec_resolved_work_dir(
    cli: &CliOptions,
    base: &Config,
    doc_dir: &Option<String>,
) -> Option<String> {
    if cli.work_dir is Some {
        cli.work_dir
    } else if base.migrate.work_dir is Some {
        base.migrate.work_dir
    } else {
        *doc_dir
    }
}

/// The mode that resolution must produce: the command-line override wins
/// when it parses, else the document's own mode; `None` when a
/// command-line mode is given but names no mode.
pub open spec fn spec_resolved_mode(cli: &CliOptions, base: &Config) -> Option<MigMode> {
    match cli.mode {
        Some(m) => spec_mode_of_str(m@),
        None => Some(base.migrate.mode),
    }
}

/// The image reference that resolution must produce: a command-line
/// image path always becomes a raw-disk-image reference without a
/// digest; otherwise the document's image reference stands.
pub open spec fn spec_image_resolved(cli: &CliOptions, base: &Config, img: Option<ImageType>) -> bool {
    match cli.image {
        Some(p) => img matches Some(ImageType::Flasher(f)) && f.path@ == p@ && f.hash is None,
        None => img == base.balena.image,
    }
}

/// Whether resolution succeeds on the given inputs: a work directory is
/// resolved, the mode resolves to something other than `Invalid`, and
/// the merged configuration passes validation.
pub open spec fn spec_resolve_ok(cli: &CliOptions, base: &Config, doc_dir: &Option<String>) -> bool {
    &&& spec_resolved_work_dir(cli, base, doc_dir) is Some
    &&& spec_resolved_mode(cli, base) matches Some(m) && m != MigMode::Invalid
        && (m == MigMode::Immediate ==> ((cli.image is Some || base.balena.image is Some)
        && base.balena.config is Some))
}

/// Whether a parsed document tree is well-shaped: each of the three
/// sections is, with a missing or null section standing for its
/// defaults.
pub open spec fn spec_config_ok(t: YamlNode) -> bool {
    &&& spec_migrate_ok(spec_sub(t, "migrate"@))
    &&& spec_balena_ok(spec_sub(t, "balena"@))
    &&& spec_debug_ok(spec_sub(t, "debug"@))
}

/// What a configuration read from a well-shaped document tree holds,
/// section by section.
pub open spec fn spec_config_matches(t: YamlNode, c: Config) -> bool {
    &&& spec_migrate_matches(spec_sub(t, "migrate"@), c.migrate)
    &&& spec_balena_matches(spec_sub(t, "balena"@), c.balena)
    &&& spec_debug_matches(spec_sub(t, "debug"@), c.debug)
}

impl Config {
    /// The compiled-in defaults for all three sub-trees.
    pub fn default() -> (r: Config)
        ensures
            r.migrate.work_dir is None,
            r.migrate.mode == MigMode::Invalid,
            r.balena.image is None,
            r.balena.config is None,
            r.debug.no_flash == false,
    {
        Config {
            migrate: MigrateConfig::default(),
            balena: BalenaConfig::default(),
            debug: DebugConfig::default(),
        }
    }

    /// Validation cascades top-down: the migrate sub-tree first, then the
    /// balena sub-tree under the resolved mode, then the debug sub-tree.
    pub fn check(&self) -> (r: Result<(), MigError>)
        ensures
            r is Ok <==> self.migrate.spec_valid() && self.balena.spec_valid(self.migrate.mode),
            r matches Err(e) ==> e.spec_kind() == MigErrorKind::InvParam,
    {
        self.migrate.check()?;
        let mode = *self.migrate.get_mig_mode();
        self.balena.check(&mode)?;
        self.debug.check(&mode)?;
        Ok(())
    }

    /// Parses a configuration document: succeeds exactly when the text
    /// is well-formed YAML whose recognised keys are well-shaped, and
    /// then holds what the document says. Each of the three sections
    /// updates the compiled-in defaults; a missing or null section
    /// leaves its defaults standing, and unrecognised keys are
    /// tolerated.
    pub fn from_string(config_str: &str) -> (r: Result<Config, MigError>)
        ensures
            r is Ok <==> (yaml_tree_of(config_str@) matches Some(t) && spec_config_ok(t)),
            r matches Ok(c) ==> (yaml_tree_of(config_str@) matches Some(t) && spec_config_matches(
                t,
                c,
            )),
            r matches Err(e) ==> {
                if yaml_tree_of(config_str@) is None {
                    e.spec_kind() == MigErrorKind::Upstream
                } else {
                    e.spec_kind() == MigErrorKind::InvParam
                }
            },
    {
        let tree = match yaml_parse_tree(config_str) {
            Some(t) => t,
            None => {
                return Err(
                    MigError::from_remark(
                        MigErrorKind::Upstream,
                        "failed to deserialize the configuration from yaml",
                    ),
                );
            },
        };
        let null_node = YamlNode::Null;
        let migrate = migrate_config_from_yaml(
            match node_field(&tree, "migrate") {
                Some(m) => m,
                None => &null_node,
            },
        )?;
        let balena = balena_config_from_yaml(
            match node_field(&tree, "balena") {
                Some(b) => b,
                None => &null_node,
            },
        )?;
        let debug = debug_config_from_yaml(
            match node_field(&tree, "debug") {
                Some(d) => d,
                None => &null_node,
            },
        )?;
        Ok(Config { migrate, balena, debug })
    }

    /// Merges command-line overrides into the configuration read from the
    /// document (or the defaults when none was found), applies the
    /// work-directory fallback to the document's own directory, and
    /// validates the result.
    ///
    /// `base` is the document's configuration, or `Config::default()`
    /// when no document was found; `doc_dir` is the directory containing
    /// the document, when one was found.
    pub fn resolve(cli: &CliOptions, base: Config, doc_dir: Option<String>) -> (r: Result<
        Config,
        MigError,
    >)
        ensures
            r is Ok <==> spec_resolve_ok(cli, &base, &doc_dir),
            r matches Ok(c) ==> {
                &&& c.migrate.work_dir == spec_resolved_work_dir(cli, &base, &doc_dir)
                &&& Some(c.migrate.mode) == spec_resolved_mode(cli, &base)
                &&& c.migrate.mode != MigMode::Invalid
                &&& spec_image_resolved(cli, &base, c.balena.image)
                &&& c.migrate == (MigrateConfig {
                    work_dir: c.migrate.work_dir,
                    mode: c.migrate.mode,
                    ..base.migrate
                })
                &&& c.balena == (BalenaConfig { image: c.balena.image, ..base.balena })
                &&& c.debug == base.debug
                &&& c.migrate.spec_valid()
                &&& c.balena.spec_valid(c.migrate.mode)
            },
            r matches Err(e) ==> {
                if spec_resolved_work_dir(cli, &base, &doc_dir) is None {
                    e.spec_kind() == MigErrorKind::Displayed
                } else {
                    e.spec_kind() == MigErrorKind::InvParam
                }
            },
    {
        let mut config = base;

        // A found document doubles as an anchor for relative paths: when
        // neither it nor the command line names a work directory, its own
        // containing directory becomes the work directory.
        if !config.migrate.has_work_dir() && cli.work_dir.is_none() {
            if let Some(dir) = doc_dir {
                config.migrate.set_work_dir(dir);
            }
        }

        // The command-line work directory overrides anything the document
        // specified.
        if let Some(wd) = &cli.work_dir {
            config.migrate.set_work_dir(wd.clone());
        }

        if !config.migrate.has_work_dir() {
            // Reported to the user at the point of detection; propagated
            // silently from here on.
            return Err(MigError::displayed());
        }

        // The command-line mode overrides anything the document specified.
        if let Some(ms) = &cli.mode {
            match MigMode::from_str(ms.as_str()) {
                Ok(m) => config.migrate.set_mig_mode(&m),
                Err(e) => {
                    return Err(e);
                },
            }
        }

        // The command-line image overrides anything the document specified.
        if let Some(img) = &cli.image {
            config.balena.set_image_path(img.as_str());
        }

        match config.check() {
            Ok(()) => Ok(config),
            Err(e) => Err(e),
        }
    }
}

/// Canonicalizes the command-line work directory, when one was given:
/// resolution anchors relative paths there, so it must be an absolute
/// path to an existing directory. Everything else passes through
/// unchanged.
pub fn canonical_cli_work_dir(cli: CliOptions) -> (r: Result<CliOptions, MigError>)
    ensures
        r matches Ok(c) ==> {
            &&& c.mode == cli.mode
            &&& c.image == cli.image
            &&& c.config == cli.config
            &&& (cli.work_dir is None ==> c.work_dir is None)
            &&& (cli.work_dir is Some ==> c.work_dir is Some)
        },
        r matches Err(e) ==> e.spec_kind() == MigErrorKind::Upstream,
{
    match &cli.work_dir {
        None => Ok(cli),
        Some(dir) => {
            let canonical = canonicalize(dir.as_str())?;
            Ok(CliOptions { work_dir: Some(canonical), ..cli })
        },
    }
}

/// The name the configuration document is looked for under when the
/// command line does not name one.
pub fn default_config_name() -> (r: String)
    ensures
        r@ == "balena-migrate.yml"@,
{
    "balena-migrate.yml".to_owned()
}

/// The document path the location order picks: an absolute candidate
/// stands as it is; otherwise the candidate canonicalized against the
/// current directory wins over the candidate canonicalized under the
/// provisional work directory; with neither, there is no document.
pub open spec fn spec_config_path_choice(
    cand: String,
    direct: Option<String>,
    joined: Option<String>,
) -> Option<String> {
    if spec_is_absolute(cand@) {
        Some(cand)
    } else {
        match direct {
            Some(d) => Some(d),
            None => joined,
        }
    }
}

/// Picks the document path the location order demands from the two
/// canonicalization outcomes.
pub fn config_path_choice(cand: String, direct: Option<String>, joined: Option<String>) -> (r:
    Option<String>)
    ensures
        r == spec_config_path_choice(cand, direct, joined),
{
    if path_is_absolute(cand.as_str()) {
        Some(cand)
    } else {
        match direct {
            Some(d) => Some(d),
            None => joined,
        }
    }
}

/// Locates the configuration document: an absolute command-line path is
/// taken as it stands; a relative name is canonicalized against the
/// current directory, then against the provisional work directory; when
/// neither exists, there is no document — a valid outcome, resolved
/// from defaults. The choice among the probed outcomes is
/// `config_path_choice`'s contract.
pub fn locate_config_path(cli_config: &Option<String>, tmp_work_dir: &str) -> (r: Option<String>)
    ensures
        cli_config matches Some(c) ==> (spec_is_absolute(c@) ==> (r matches Some(p) && p@
            == c@)),
{
    let cand: String = match cli_config {
        Some(c) => c.clone(),
        None => default_config_name(),
    };
    let is_abs = path_is_absolute(cand.as_str());
    let direct: Option<String> = if is_abs {
        None
    } else {
        match canonicalize(cand.as_str()) {
            Ok(abs) => Some(abs),
            Err(_) => None,
        }
    };
    let joined: Option<String> = if is_abs || direct.is_some() {
        None
    } else {
        match canonicalize(path_append(tmp_work_dir, cand.as_str()).as_str()) {
            Ok(abs) => Some(abs),
            Err(_) => None,
        }
    };
    config_path_choice(cand, direct, joined)
}

/// Mode-resolution law: when the document does not set a mode and no
/// command-line override is given, the mode resolves to `Invalid` and
/// resolution fails; when either source sets one, the resolved mode is
/// the command-line mode when given, else the document's own.
pub proof fn lemma_mode_resolution(cli: &CliOptions, base: &Config, doc_dir: &Option<String>)
    ensures
        (cli.mode is None && base.migrate.mode == MigMode::Invalid) ==> !spec_resolve_ok(
            cli,
            base,
            doc_dir,
        ),
        cli.mode is None ==> spec_resolved_mode(cli, base) == Some(base.migrate.mode),
        cli.mode matches Some(ms) ==> (spec_mode_of_str(ms@) matches Some(m)
            ==> spec_resolved_mode(cli, base) == Some(m)),
{
}

/// Work-directory precedence law: command-line over document-specified
/// over the document's own containing directory, and failure with none
/// of the three — never a silent default.
pub proof fn lemma_work_dir_precedence(cli: &CliOptions, base: &Config, doc_dir: &Option<String>)
    ensures
        cli.work_dir is Some ==> spec_resolved_work_dir(cli, base, doc_dir) == cli.work_dir,
        (cli.work_dir is None && base.migrate.work_dir is Some) ==> spec_resolved_work_dir(
            cli,
            base,
            doc_dir,
        ) == base.migrate.work_dir,
        (cli.work_dir is None && base.migrate.work_dir is None) ==> spec_resolved_work_dir(
            cli,
            base,
            doc_dir,
        ) == *doc_dir,
        (cli.work_dir is None && base.migrate.work_dir is None && doc_dir is None) ==> !spec_resolve_ok(
            cli,
            base,
            doc_dir,
        ),
{
}

} // verus!
