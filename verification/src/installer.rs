//! MSI installer exit codes and command construction.
//!
//! The command builder is pure: the exact command string it produces is
//! stated as a spec-level function of its inputs, so equal inputs always
//! yield byte-identical commands.

use vstd::prelude::*;

use crate::strutil::{
    contains_char, is_hex_digit, replace_all, spec_is_hex_digit, spec_replace_all, spec_views_of,
    spec_ws_tokens, split_ws_tokens,
};
use crate::types::JobType;

verus! {

/// Errors from installer command construction.
#[derive(Debug)]
pub enum InstallerError {
    InvalidPath(String),
    UnsupportedJobType(JobType),
    MissingParameter(String),
    InvalidProductCode(String),
}

impl InstallerError {
    /// The error's message text.
    pub open spec fn spec_message(self) -> Seq<char> {
        match self {
            InstallerError::InvalidPath(p) => "Invalid MSI path: "@ + p@,
            InstallerError::UnsupportedJobType(t) => "Unsupported job type: "@ + (match t {
                JobType::MsiInstall => "MsiInstall"@,
                JobType::MsiUninstall => "MsiUninstall"@,
                JobType::Execute => "Execute"@,
            }),
            InstallerError::MissingParameter(p) => "Missing required parameter: "@ + p@,
            InstallerError::InvalidProductCode(c) => "Invalid product code format: "@ + c@,
        }
    }

    /// Render the error as text.
    pub fn message(&self) -> (r: String)
        ensures
            r@ == self.spec_message(),
    {
        match self {
            InstallerError::InvalidPath(p) => String::from_str("Invalid MSI path: ").concat(
                p.as_str(),
            ),
            InstallerError::UnsupportedJobType(t) => String::from_str(
                "Unsupported job type: ",
            ).concat(
                match t {
                    JobType::MsiInstall => "MsiInstall",
                    JobType::MsiUninstall => "MsiUninstall",
                    JobType::Execute => "Execute",
                },
            ),
            InstallerError::MissingParameter(p) => String::from_str(
                "Missing required parameter: ",
            ).concat(p.as_str()),
            InstallerError::InvalidProductCode(c) => String::from_str(
                "Invalid product code format: ",
            ).concat(c.as_str()),
        }
    }
}

/// Exit codes the platform installer reports, with their meanings.
#[derive(Debug, Clone, Copy, PartialEq, Eq, Structural)]
pub enum MsiExitCode {
    /// Installation completed successfully (0)
    Success,
    /// Reboot required to complete installation (3010)
    RebootRequired,
    /// Installation already in progress (1618)
    AlreadyInProgress,
    /// Invalid command line argument (1639)
    InvalidArgument,
    /// Installation source unavailable (1612)
    SourceUnavailable,
    /// Product not installed, seen on uninstall (1605)
    ProductNotInstalled,
    /// General failure
    Failed(i32),
}

/// The installer exit-code variant a raw exit code maps to.
pub open spec fn spec_exit_code_from(code: int) -> MsiExitCode {
    if code == 0 {
        MsiExitCode::Success
    } else if code == 3010 {
        MsiExitCode::RebootRequired
    } else if code == 1618 {
        MsiExitCode::AlreadyInProgress
    } else if code == 1639 {
        MsiExitCode::InvalidArgument
    } else if code == 1612 {
        MsiExitCode::SourceUnavailable
    } else if code == 1605 {
        MsiExitCode::ProductNotInstalled
    } else {
        MsiExitCode::Failed(code as i32)
    }
}

/// An exit code reports success exactly when it is 0 (success) or
/// 3010 (success, reboot pending).
pub open spec fn spec_exit_code_is_success(code: int) -> bool {
    code == 0 || code == 3010
}

impl MsiExitCode {
    /// The raw exit code this variant stands for.
    pub open spec fn spec_code(self) -> int {
        match self {
            MsiExitCode::Success => 0,
            MsiExitCode::RebootRequired => 3010,
            MsiExitCode::AlreadyInProgress => 1618,
            MsiExitCode::InvalidArgument => 1639,
            MsiExitCode::SourceUnavailable => 1612,
            MsiExitCode::ProductNotInstalled => 1605,
            MsiExitCode::Failed(code) => code as int,
        }
    }

    /// Check if this exit code represents a successful installation.
    ///
    /// Both 0 (success) and 3010 (reboot required) are considered successful.
    pub fn is_success(&self) -> (r: bool)
        ensures
            r == (*self == MsiExitCode::Success || *self == MsiExitCode::RebootRequired),
    {
        matches!(self, MsiExitCode::Success | MsiExitCode::RebootRequired)
    }

    /// The human-readable description of an exit code.
    pub open spec fn spec_description(self) -> Seq<char> {
        match self {
            MsiExitCode::Success => "Installation completed successfully"@,
            MsiExitCode::RebootRequired => "Installation requires reboot"@,
            MsiExitCode::AlreadyInProgress => "Another installation is in progress"@,
            MsiExitCode::InvalidArgument => "Invalid command line argument"@,
            MsiExitCode::SourceUnavailable => "Installation source unavailable"@,
            MsiExitCode::ProductNotInstalled => "Product is not installed"@,
            MsiExitCode::Failed(_) => "Installation failed"@,
        }
    }

    /// Get a human-readable description.
    pub fn description(&self) -> (r: &'static str)
        ensures
            r@ == self.spec_description(),
    {
        match self {
            MsiExitCode::Success => "Installation completed successfully",
            MsiExitCode::RebootRequired => "Installation requires reboot",
            MsiExitCode::AlreadyInProgress => "Another installation is in progress",
            MsiExitCode::InvalidArgument => "Invalid command line argument",
            MsiExitCode::SourceUnavailable => "Installation source unavailable",
            MsiExitCode::ProductNotInstalled => "Product is not installed",
            MsiExitCode::Failed(_) => "Installation failed",
        }
    }

    /// Get the raw exit code value.
    pub fn code(&self) -> (r: i32)
        ensures
            r as int == self.spec_code(),
    {
        match self {
            MsiExitCode::Success => 0,
            MsiExitCode::RebootRequired => 3010,
            MsiExitCode::AlreadyInProgress => 1618,
            MsiExitCode::InvalidArgument => 1639,
            MsiExitCode::SourceUnavailable => 1612,
            MsiExitCode::ProductNotInstalled => 1605,
            MsiExitCode::Failed(code) => *code,
        }
    }
}

impl From<i32> for MsiExitCode {
    fn from(code: i32) -> (r: MsiExitCode) {
        match code {
            0 => MsiExitCode::Success,
            3010 => MsiExitCode::RebootRequired,
            1618 => MsiExitCode::AlreadyInProgress,
            1639 => MsiExitCode::InvalidArgument,
            1612 => MsiExitCode::SourceUnavailable,
            1605 => MsiExitCode::ProductNotInstalled,
            other => MsiExitCode::Failed(other),
        }
    }
}

impl vstd::std_specs::convert::FromSpecImpl<i32> for MsiExitCode {
    open spec fn obeys_from_spec() -> bool {
        true
    }

    open spec fn from_spec(code: i32) -> MsiExitCode {
        spec_exit_code_from(code as int)
    }
}

/// An installer run succeeds exactly on exit codes 0 and 3010: the variant a
/// code maps to reports success if and only if the code is one of those two.
pub proof fn lemma_exit_code_success_iff(code: int)
    ensures
        (spec_exit_code_from(code) == MsiExitCode::Success
            || spec_exit_code_from(code) == MsiExitCode::RebootRequired)
            <==> spec_exit_code_is_success(code),
{
}

/// Builder for platform installer commands.
#[derive(Debug)]
pub struct MsiCommandBuilder {
    /// Path to the MSI file
    pub msi_path: String,
    /// Installation type (install/uninstall)
    pub job_type: JobType,
    /// Additional arguments
    pub install_args: Vec<String>,
    /// Properties to set (KEY=VALUE)
    pub properties: Vec<(String, String)>,
    /// Quiet mode (no UI)
    pub quiet: bool,
    /// No restart
    pub no_restart: bool,
    /// Logging options
    pub log_file: Option<String>,
}

/// The fixed part of the command: executable, operation flag, quoted path,
/// quiet and no-restart flags, and the optional logging clause.
pub open spec fn spec_command_header(b: MsiCommandBuilder) -> Seq<char> {
    "msiexec"@ + (if b.job_type == JobType::MsiInstall {
        " /i"@
    } else {
        " /x"@
    }) + " \""@ + b.msi_path@ + "\""@ + (if b.quiet {
        " /qn"@
    } else {
        Seq::<char>::empty()
    }) + (if b.no_restart {
        " /norestart"@
    } else {
        Seq::<char>::empty()
    }) + (match b.log_file {
        Some(f) => " /l*v \""@ + f@ + "\""@,
        None => Seq::<char>::empty(),
    })
}

/// The extra-argument part: each argument preceded by one space.
pub open spec fn spec_args_part(args: Seq<Seq<char>>) -> Seq<char>
    decreases args.len(),
{
    if args.len() == 0 {
        Seq::empty()
    } else {
        spec_args_part(args.drop_last()) + " "@ + args.last()
    }
}

/// One property clause; a value containing a space is quoted.
pub open spec fn spec_prop_entry(key: Seq<char>, value: Seq<char>) -> Seq<char> {
    " "@ + key + "="@ + (if value.contains(' ') {
        "\""@ + value + "\""@
    } else {
        value
    })
}

/// The property part of the command.
pub open spec fn spec_props_part(props: Seq<(Seq<char>, Seq<char>)>) -> Seq<char>
    decreases props.len(),
{
    if props.len() == 0 {
        Seq::empty()
    } else {
        spec_props_part(props.drop_last()) + spec_prop_entry(props.last().0, props.last().1)
    }
}

/// The views of a property list.
pub open spec fn spec_prop_views(props: Seq<(String, String)>) -> Seq<(Seq<char>, Seq<char>)> {
    props.map_values(|kv: (String, String)| (kv.0@, kv.1@))
}

/// The exact command string the builder produces, defined for the two
/// supported job types.
pub open spec fn spec_command(b: MsiCommandBuilder) -> Seq<char> {
    spec_command_header(b) + spec_args_part(spec_views_of(b.install_args@)) + spec_props_part(
        spec_prop_views(b.properties@),
    )
}

impl MsiCommandBuilder {
    /// Create a new command builder; quiet mode and no-restart default on.
    pub fn new(msi_path: &str, job_type: JobType) -> (r: MsiCommandBuilder)
        ensures
            r.msi_path@ == msi_path@,
            r.job_type == job_type,
            r.install_args@ == Seq::<String>::empty(),
            r.properties@ == Seq::<(String, String)>::empty(),
            r.quiet,
            r.no_restart,
            r.log_file is None,
    {
        let r = MsiCommandBuilder {
            msi_path: String::from_str(msi_path),
            job_type,
            install_args: Vec::new(),
            properties: Vec::new(),
            quiet: true,
            no_restart: true,
            log_file: None,
        };
        proof {
            assert(r.install_args@ =~= Seq::<String>::empty());
            assert(r.properties@ =~= Seq::<(String, String)>::empty());
        }
        r
    }

    /// Add installation arguments, split at runs of ASCII whitespace
    /// (space, tab, and line-break characters; the argument strings this
    /// worker handles are ASCII command-line switches).
    pub fn with_args(self, args: &str) -> (r: MsiCommandBuilder)
        ensures
            spec_views_of(r.install_args@) == spec_views_of(self.install_args@) + spec_ws_tokens(
                args@,
            ),
            r.msi_path == self.msi_path,
            r.job_type == self.job_type,
            r.properties == self.properties,
            r.quiet == self.quiet,
            r.no_restart == self.no_restart,
            r.log_file == self.log_file,
    {
        let mut this = self;
        let mut tokens = split_ws_tokens(args);
        let ghost old_args = this.install_args@;
        let ghost new_tokens = tokens@;
        this.install_args.append(&mut tokens);
        proof {
            assert(spec_views_of(old_args + new_tokens) =~= spec_views_of(old_args)
                + spec_views_of(new_tokens));
        }
        this
    }

    /// Add a property value (e.g., an enrollment token).
    pub fn with_property(self, key: &str, value: &str) -> (r: MsiCommandBuilder)
        ensures
            spec_prop_views(r.properties@) == spec_prop_views(self.properties@).push(
                (key@, value@),
            ),
            r.msi_path == self.msi_path,
            r.job_type == self.job_type,
            r.install_args == self.install_args,
            r.quiet == self.quiet,
            r.no_restart == self.no_restart,
            r.log_file == self.log_file,
    {
        let mut this = self;
        this.properties.push((String::from_str(key), String::from_str(value)));
        proof {
            assert(spec_prop_views(this.properties@) =~= spec_prop_views(
                this.properties@.drop_last(),
            ).push((key@, value@)));
        }
        this
    }

    /// Set quiet mode (default: true).
    pub fn quiet(self, quiet: bool) -> (r: MsiCommandBuilder)
        ensures
            r == (MsiCommandBuilder { quiet, ..self }),
    {
        let mut this = self;
        this.quiet = quiet;
        this
    }

    /// Set no-restart option (default: true).
    pub fn no_restart(self, no_restart: bool) -> (r: MsiCommandBuilder)
        ensures
            r == (MsiCommandBuilder { no_restart, ..self }),
    {
        let mut this = self;
        this.no_restart = no_restart;
        this
    }

    /// Enable logging to a file.
    pub fn with_logging(self, log_file: &str) -> (r: MsiCommandBuilder)
        ensures
            r.log_file matches Some(f) && f@ == log_file@,
            r.msi_path == self.msi_path,
            r.job_type == self.job_type,
            r.install_args == self.install_args,
            r.properties == self.properties,
            r.quiet == self.quiet,
            r.no_restart == self.no_restart,
    {
        let mut this = self;
        this.log_file = Some(String::from_str(log_file));
        this
    }

    /// Build the installer command line: the generic-execute kind is
    /// rejected, every other input yields exactly the command that
    /// `spec_command` states.
    pub fn build(self) -> (r: Result<String, InstallerError>)
        ensures
            self.job_type == JobType::Execute ==> r == Err::<String, InstallerError>(
                InstallerError::UnsupportedJobType(JobType::Execute),
            ),
            self.job_type != JobType::Execute ==> (r matches Ok(cmd) && cmd@ == spec_command(self)),
    {
        let mut cmd = String::from_str("msiexec");

        match self.job_type {
            JobType::MsiInstall => {
                cmd.append(" /i");
            },
            JobType::MsiUninstall => {
                cmd.append(" /x");
            },
            JobType::Execute => {
                return Err(InstallerError::UnsupportedJobType(self.job_type));
            },
        }

        cmd.append(" \"");
        cmd.append(self.msi_path.as_str());
        cmd.append("\"");

        if self.quiet {
            cmd.append(" /qn");
        }

        if self.no_restart {
            cmd.append(" /norestart");
        }

        if let Some(log_file) = &self.log_file {
            cmd.append(" /l*v \"");
            cmd.append(log_file.as_str());
            cmd.append("\"");
        }

        assert(cmd@ == spec_command_header(self));

        let ghost header = spec_command_header(self);
        let arg_count = self.install_args.len();
        proof {
            assert(spec_views_of(self.install_args@.subrange(0, 0)) =~= Seq::<Seq<char>>::empty());
        }
        let mut i: usize = 0;
        while i < arg_count
            invariant
                i <= arg_count,
                arg_count == self.install_args@.len(),
                cmd@ == header + spec_args_part(
                    spec_views_of(self.install_args@.subrange(0, i as int)),
                ),
            decreases arg_count - i,
        {
            cmd.append(" ");
            cmd.append(self.install_args[i].as_str());
            proof {
                let va = spec_views_of(self.install_args@.subrange(0, i + 1));
                assert(va.drop_last() =~= spec_views_of(self.install_args@.subrange(0, i as int)));
                assert(va.last() == self.install_args@[i as int]@);
            }
            i = i + 1;
        }
        proof {
            assert(self.install_args@.subrange(0, arg_count as int) =~= self.install_args@);
        }

        let ghost with_args = cmd@;
        let prop_count = self.properties.len();
        proof {
            assert(spec_prop_views(self.properties@.subrange(0, 0)) =~= Seq::<
                (Seq<char>, Seq<char>),
            >::empty());
        }
        let mut j: usize = 0;
        while j < prop_count
            invariant
                j <= prop_count,
                prop_count == self.properties@.len(),
                cmd@ == with_args + spec_props_part(
                    spec_prop_views(self.properties@.subrange(0, j as int)),
                ),
            decreases prop_count - j,
        {
            let key = &self.properties[j].0;
            let value = &self.properties[j].1;
            cmd.append(" ");
            cmd.append(key.as_str());
            cmd.append("=");
            if contains_char(value.as_str(), ' ') {
                cmd.append("\"");
                cmd.append(value.as_str());
                cmd.append("\"");
            } else {
                cmd.append(value.as_str());
            }
            proof {
                let pv = spec_prop_views(self.properties@.subrange(0, j + 1));
                assert(pv.drop_last() =~= spec_prop_views(self.properties@.subrange(0, j as int)));
                assert(pv.last() == (self.properties@[j as int].0@, self.properties@[j as int].1@));
            }
            j = j + 1;
        }
        proof {
            assert(self.properties@.subrange(0, prop_count as int) =~= self.properties@);
        }

        Ok(cmd)
    }
}

/// The command builder is deterministic: two builders that agree on path,
/// kind, arguments, properties, flags, and logging destination yield the
/// identical command string.
pub proof fn lemma_command_deterministic(a: MsiCommandBuilder, b: MsiCommandBuilder)
    requires
        a.msi_path@ == b.msi_path@,
        a.job_type == b.job_type,
        spec_views_of(a.install_args@) == spec_views_of(b.install_args@),
        spec_prop_views(a.properties@) == spec_prop_views(b.properties@),
        a.quiet == b.quiet,
        a.no_restart == b.no_restart,
        match (a.log_file, b.log_file) {
            (Some(f), Some(g)) => f@ == g@,
            (None, None) => true,
            _ => false,
        },
    ensures
        spec_command(a) == spec_command(b),
{
    assert(spec_command_header(a) == spec_command_header(b));
}

/// A product code in the canonical curly-braced 8-4-4-4-12 hexadecimal
/// format.
pub open spec fn spec_valid_product_code(s: Seq<char>) -> bool {
    &&& s.len() == 38
    &&& s[0] == '{'
    &&& s[37] == '}'
    &&& s[9] == '-'
    &&& s[14] == '-'
    &&& s[19] == '-'
    &&& s[24] == '-'
    &&& forall|i: int|
        1 <= i < 37 && i != 9 && i != 14 && i != 19 && i != 24 ==> spec_is_hex_digit(
            #[trigger] s[i],
        )
}

/// Validate a product code (GUID) format.
pub fn is_valid_product_code(code: &str) -> (r: bool)
    ensures
        r == spec_valid_product_code(code@),
{
    let n = code.unicode_len();
    if n != 38 {
        return false;
    }
    if code.get_char(0) != '{' || code.get_char(37) != '}' {
        return false;
    }
    let mut i: usize = 1;
    while i < 37
        invariant
            1 <= i <= 37,
            code@.len() == 38,
            code@[0] == '{',
            code@[37] == '}',
            forall|j: int|
                1 <= j < i ==> if j == 9 || j == 14 || j == 19 || j == 24 {
                    code@[j] == '-'
                } else {
                    spec_is_hex_digit(#[trigger] code@[j])
                },
        decreases 37 - i,
    {
        let c = code.get_char(i);
        if i == 9 || i == 14 || i == 19 || i == 24 {
            if c != '-' {
                return false;
            }
        } else {
            if !is_hex_digit(c) {
                return false;
            }
        }
        i = i + 1;
    }
    true
}

/// The command an install job produces for a given path, extra arguments,
/// and optional enrollment token.
pub open spec fn spec_install_command(
    msi_path: Seq<char>,
    install_args: Option<Seq<char>>,
    enroll_token: Option<Seq<char>>,
) -> Seq<char> {
    "msiexec"@ + " /i"@ + " \""@ + msi_path + "\""@ + " /qn"@ + " /norestart"@ + spec_args_part(
        match install_args {
            Some(a) => spec_ws_tokens(a),
            None => Seq::empty(),
        },
    ) + (match enroll_token {
        Some(t) => spec_prop_entry("ENROLL_TOKEN"@, t),
        None => Seq::empty(),
    })
}

/// Build an MSI install command.
pub fn build_msi_install_command(
    msi_path: &str,
    install_args: Option<&str>,
    enroll_token: Option<&str>,
) -> (r: Result<String, InstallerError>)
    ensures
        r matches Ok(cmd) && cmd@ == spec_install_command(
            msi_path@,
            match install_args {
                Some(a) => Some(a@),
                None => None,
            },
            match enroll_token {
                Some(t) => Some(t@),
                None => None,
            },
        ),
{
    let mut builder = MsiCommandBuilder::new(msi_path, JobType::MsiInstall);

    if let Some(args) = install_args {
        builder = builder.with_args(args);
    }

    if let Some(token) = enroll_token {
        builder = builder.with_property("ENROLL_TOKEN", token);
    }

    let r = builder.build();
    proof {
        let expected = spec_install_command(
            msi_path@,
            match install_args {
                Some(a) => Some(a@),
                None => None,
            },
            match enroll_token {
                Some(t) => Some(t@),
                None => None,
            },
        );
        lemma_args_part_of_prefix(builder.install_args@);
        lemma_props_part_single(builder.properties@);
        assert(spec_command(builder) =~= expected);
    }
    r
}

/// For an argument list that is exactly one token list appended to nothing,
/// the argument part is the part of the tokens alone.
proof fn lemma_args_part_of_prefix(args: Seq<String>)
    ensures
        spec_args_part(spec_views_of(args)) == spec_args_part(
            Seq::<Seq<char>>::empty() + spec_views_of(args),
        ),
{
    assert(Seq::<Seq<char>>::empty() + spec_views_of(args) =~= spec_views_of(args));
}

/// The property part of a list of at most one property.
proof fn lemma_props_part_single(props: Seq<(String, String)>)
    requires
        props.len() <= 1,
    ensures
        props.len() == 0 ==> spec_props_part(spec_prop_views(props)) == Seq::<char>::empty(),
        props.len() == 1 ==> spec_props_part(spec_prop_views(props)) == Seq::<char>::empty()
            + spec_prop_entry(props[0].0@, props[0].1@),
{
    if props.len() == 1 {
        let pv = spec_prop_views(props);
        assert(pv.len() == 1);
        assert(pv.drop_last() =~= Seq::<(Seq<char>, Seq<char>)>::empty());
        assert(spec_props_part(Seq::<(Seq<char>, Seq<char>)>::empty()) == Seq::<char>::empty());
        assert(pv.last() == (props[0].0@, props[0].1@));
        assert(spec_props_part(pv) == spec_props_part(pv.drop_last()) + spec_prop_entry(
            pv.last().0,
            pv.last().1,
        ));
    }
}

/// The command an uninstall job produces for a product code (or installer
/// path) and extra arguments.
pub open spec fn spec_uninstall_command(
    product_code: Seq<char>,
    install_args: Option<Seq<char>>,
) -> Seq<char> {
    "msiexec"@ + " /x"@ + " \""@ + product_code + "\""@ + " /qn"@ + " /norestart"@
        + spec_args_part(
        match install_args {
            Some(a) => spec_ws_tokens(a),
            None => Seq::empty(),
        },
    )
}

/// Build an MSI uninstall command.  A curly-braced product code that is not
/// in the canonical format is rejected before any command is produced.
pub fn build_msi_uninstall_command(product_code: &str, install_args: Option<&str>) -> (r: Result<
    String,
    InstallerError,
>)
    ensures
        (product_code@.len() > 0 && product_code@[0] == '{' && !spec_valid_product_code(
            product_code@,
        )) ==> (r matches Err(e) && e matches InstallerError::InvalidProductCode(c) && c@
            == product_code@),
        !(product_code@.len() > 0 && product_code@[0] == '{' && !spec_valid_product_code(
            product_code@,
        )) ==> (r matches Ok(cmd) && cmd@ == spec_uninstall_command(
            product_code@,
            match install_args {
                Some(a) => Some(a@),
                None => None,
            },
        )),
{
    let starts_with_brace = if product_code.unicode_len() > 0 {
        product_code.get_char(0) == '{'
    } else {
        false
    };
    if starts_with_brace && !is_valid_product_code(product_code) {
        return Err(InstallerError::InvalidProductCode(String::from_str(product_code)));
    }

    let mut builder = MsiCommandBuilder::new(product_code, JobType::MsiUninstall);

    if let Some(args) = install_args {
        builder = builder.with_args(args);
    }

    let r = builder.build();
    proof {
        let expected = spec_uninstall_command(
            product_code@,
            match install_args {
                Some(a) => Some(a@),
                None => None,
            },
        );
        lemma_args_part_of_prefix(builder.install_args@);
        lemma_props_part_single(builder.properties@);
        assert(spec_command(builder) =~= expected);
    }
    r
}

/// Build a command for executing via the remote service mechanism: the
/// installer command wrapped in a platform shell invocation.
pub fn wrap_for_service_execution(msi_command: &str) -> (r: String)
    ensures
        r@ == "cmd.exe /c "@ + msi_command@,
{
    String::from_str("cmd.exe /c ").concat(msi_command)
}

/// The UNC path of the remote installation log for a target and installer
/// file name: the file name with every ".msi" replaced by ".log", under the
/// target's administrative temp directory.
pub open spec fn spec_remote_log_path(hostname: Seq<char>, msi_filename: Seq<char>) -> Seq<char> {
    "\\\\"@ + hostname + "\\ADMIN$\\Temp\\"@ + spec_replace_all(msi_filename, ".msi"@, ".log"@)
}

/// Get the remote log file path for an installation.
pub fn get_remote_log_path(target_hostname: &str, msi_filename: &str) -> (r: String)
    ensures
        r@ == spec_remote_log_path(target_hostname@, msi_filename@),
{
    proof {
        reveal_strlit(".msi");
    }
    let log_name = replace_all(msi_filename, ".msi", ".log");
    String::from_str("\\\\").concat(target_hostname).concat("\\ADMIN$\\Temp\\").concat(
        log_name.as_str(),
    )
}

} // verus!
