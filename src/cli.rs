use vstd::prelude::*;

verus! {

/// The data directory used when none is given.
pub const DEFAULT_DATA_DIR: &'static str = "traildepot";

/// The address the HTTP server binds to when none is given.
pub const DEFAULT_ADDRESS: &'static str = "127.0.0.1:4000";

/// The CORS origin allowed when none is given.
pub const DEFAULT_CORS_ORIGIN: &'static str = "*";

/// The message of the error for a command line without the `run` sub-command.
pub const NOT_RUN_COMMAND: &'static str = "Trying to initialize server w/o the \"run\" sub command being passed.";

/// Use-case for a JSON Schema, as given on the command line.
#[derive(Clone, Copy, Debug, PartialEq, Eq, Structural)]
pub enum JsonSchemaModeArg {
    /// Insert mode.
    Insert,
    /// Read/Select mode.
    Select,
    /// Update mode.
    Update,
}

/// Use-case for a JSON Schema: which columns are required.
#[derive(Clone, Copy, Debug, PartialEq, Eq, Structural)]
pub enum JsonSchemaMode {
    Insert,
    Select,
    Update,
}

impl From<JsonSchemaModeArg> for JsonSchemaMode {
    fn from(value: JsonSchemaModeArg) -> (r: Self)
        ensures
            r == json_schema_mode_of(value),
    {
        match value {
            JsonSchemaModeArg::Insert => JsonSchemaMode::Insert,
            JsonSchemaModeArg::Select => JsonSchemaMode::Select,
            JsonSchemaModeArg::Update => JsonSchemaMode::Update,
        }
    }
}

pub open spec fn json_schema_mode_of(value: JsonSchemaModeArg) -> JsonSchemaMode {
    match value {
        JsonSchemaModeArg::Insert => JsonSchemaMode::Insert,
        JsonSchemaModeArg::Select => JsonSchemaMode::Select,
        JsonSchemaModeArg::Update => JsonSchemaMode::Update,
    }
}

impl vstd::std_specs::convert::FromSpecImpl<JsonSchemaModeArg> for JsonSchemaMode {
    open spec fn obeys_from_spec() -> bool {
        true
    }

    open spec fn from_spec(v: JsonSchemaModeArg) -> JsonSchemaMode {
        json_schema_mode_of(v)
    }
}

/// Command line arguments of the server's command-line tool.
#[derive(Clone, Debug)]
pub struct DefaultCommandLineArgs {
    /// Directory for runtime files including the database.
    pub data_dir: String,
    pub cmd: Option<SubCommands>,
}

impl Default for DefaultCommandLineArgs {
    fn default() -> (r: Self)
        ensures
            r.data_dir@ == Seq::<char>::empty(),
            r.cmd is None,
    {
        DefaultCommandLineArgs { data_dir: String::new(), cmd: None }
    }
}

#[derive(Clone, Debug)]
pub enum SubCommands {
    /// Starts the HTTP server.
    Run(ServerArgs),
    /// Export JSON Schema definitions.
    Schema(JsonSchemaArgs),
    /// Export OpenAPI definitions.
    OpenApi { cmd: Option<OpenApiSubCommands> },
    /// Creates new empty migration file.
    Migration {
        /// Optional suffix used for the generated migration file.
        suffix: Option<String>,
    },
    /// Simple admin management.
    Admin { cmd: Option<AdminSubCommands> },
    /// Simple user management.
    User { cmd: Option<UserSubCommands> },
    /// Programmatically send emails.
    Email(EmailArgs),
}

#[derive(Clone, Debug)]
pub struct ServerArgs {
    /// Address the HTTP server binds to.
    pub address: String,
    pub admin_address: Option<String>,
    /// Optional path to static assets that will be served at the HTTP root.
    pub public_dir: Option<String>,
    /// Permissive CORS policies, for developing the UI on a separate server.
    pub dev: bool,
    pub stderr_logging: bool,
    /// Disable the built-in public authentication UI.
    pub disable_auth_ui: bool,
    /// The set of origins the HTTP server answers to.
    pub cors_allowed_origins: Vec<String>,
}

#[derive(Clone, Debug)]
pub struct JsonSchemaArgs {
    /// Name of the table to infer the JSON Schema from.
    pub table: String,
    /// Use-case for the type [Default: Insert].
    pub mode: Option<JsonSchemaModeArg>,
}

#[derive(Clone, Debug)]
pub struct EmailArgs {
    /// Receiver address.
    pub to: String,
    /// Subject line of the email to be sent.
    pub subject: String,
    /// Email body.
    pub body: String,
}

#[derive(Clone, Debug)]
pub enum OpenApiSubCommands {
    Print,
    Run { port: u16 },
}

#[derive(Clone, Debug)]
pub enum AdminSubCommands {
    /// Lists admin users.
    List,
    /// Demotes admin user to normal user.
    Demote { email: String },
    /// Promotes user to admin.
    Promote { email: String },
}

#[derive(Clone, Debug)]
pub enum UserSubCommands {
    /// Resets a user's password.
    ResetPassword { email: String, password: String },
    /// Mint auth tokens for the given user.
    MintToken { email: String },
}

/// What the server needs to start.
#[derive(Clone, Debug)]
pub struct ServerOptions {
    pub data_dir: String,
    pub address: String,
    pub admin_address: Option<String>,
    pub public_dir: Option<String>,
    pub dev: bool,
    pub disable_auth_ui: bool,
    pub cors_allowed_origins: Vec<String>,
}

/// The server options a command line gives: only the `run` sub-command
/// starts a server; it takes the data directory and the run arguments.
pub open spec fn server_options_of(value: DefaultCommandLineArgs) -> Result<ServerOptions, &'static str> {
    match value.cmd {
        Some(SubCommands::Run(args)) => Ok(
            ServerOptions {
                data_dir: value.data_dir,
                address: args.address,
                admin_address: args.admin_address,
                public_dir: args.public_dir,
                dev: args.dev,
                disable_auth_ui: args.disable_auth_ui,
                cors_allowed_origins: args.cors_allowed_origins,
            },
        ),
        _ => Err(NOT_RUN_COMMAND),
    }
}

impl TryFrom<DefaultCommandLineArgs> for ServerOptions {
    type Error = &'static str;

    fn try_from(value: DefaultCommandLineArgs) -> (r: Result<Self, Self::Error>)
        ensures
            r == server_options_of(value),
    {
        match value.cmd {
            Some(SubCommands::Run(args)) => Ok(
                ServerOptions {
                    data_dir: value.data_dir,
                    address: args.address,
                    admin_address: args.admin_address,
                    public_dir: args.public_dir,
                    dev: args.dev,
                    disable_auth_ui: args.disable_auth_ui,
                    cors_allowed_origins: args.cors_allowed_origins,
                },
            ),
            _ => Err(NOT_RUN_COMMAND),
        }
    }
}

impl vstd::std_specs::convert::TryFromSpecImpl<DefaultCommandLineArgs> for ServerOptions {
    open spec fn obeys_try_from_spec() -> bool {
        true
    }

    open spec fn try_from_spec(v: DefaultCommandLineArgs) -> Result<ServerOptions, &'static str> {
        server_options_of(v)
    }
}

} // verus!
