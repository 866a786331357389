use js_runtime::bench::fibonacci;
use js_runtime::cli::{
    AdminSubCommands, DefaultCommandLineArgs, JsonSchemaMode, JsonSchemaModeArg, ServerArgs,
    ServerOptions, SubCommands, NOT_RUN_COMMAND,
};
use js_runtime::host::{arg_at, ArgError, HostFn, JsUser};
use js_runtime::pool::{worker_count, WorkerPool};

#[test]
fn fibonacci_values() {
    assert_eq!(fibonacci(0), 0);
    assert_eq!(fibonacci(1), 1);
    assert_eq!(fibonacci(2), 1);
    assert_eq!(fibonacci(10), 55);
    assert_eq!(fibonacci(20), 6765);
    assert_eq!(fibonacci(30), 832040);
}

#[test]
fn host_function_table() {
    let all = [
        (HostFn::IsolateId, "isolate_id", 0, false),
        (HostFn::Query, "query", 2, true),
        (HostFn::Execute, "execute", 2, true),
        (HostFn::TransactionBegin, "transaction_begin", 0, true),
        (HostFn::TransactionQuery, "transaction_query", 2, false),
        (HostFn::TransactionExecute, "transaction_execute", 2, false),
        (HostFn::TransactionCommit, "transaction_commit", 0, false),
        (HostFn::TransactionRollback, "transaction_rollback", 0, false),
    ];
    for (f, name, arity, is_async) in all {
        assert_eq!(f.name(), name);
        assert_eq!(f.arity(), arity);
        assert_eq!(f.is_async(), is_async);
        assert_eq!(f.check_arity(arity), Ok(()));
    }
    assert_eq!(
        HostFn::Query.check_arity(1),
        Err(ArgError::WrongCount { expected: 2, got: 1 })
    );
    assert_eq!(
        HostFn::TransactionCommit.check_arity(3),
        Err(ArgError::WrongCount { expected: 0, got: 3 })
    );
}

#[test]
fn arguments_by_index() {
    let args = vec!["SELECT 1".to_string(), "[]".to_string()];
    assert_eq!(arg_at(&args, 0), Ok(&"SELECT 1".to_string()));
    assert_eq!(arg_at(&args, 1), Ok(&"[]".to_string()));
    assert_eq!(arg_at(&args, 2), Err(ArgError::OutOfRange { index: 2, len: 2 }));
    let none: Vec<u8> = vec![];
    assert_eq!(arg_at(&none, 0), Err(ArgError::OutOfRange { index: 0, len: 0 }));
}

#[test]
fn pool_size() {
    assert_eq!(worker_count(Some(1), Some(8)), 1);
    assert_eq!(worker_count(Some(0), Some(8)), 0);
    assert_eq!(worker_count(None, Some(8)), 8);
    assert_eq!(worker_count(None, None), 1);

    let pool = WorkerPool::new(vec!["w0", "w1", "w2"]);
    assert_eq!(pool.num_threads(), 3);
    assert_eq!(*pool.worker(1), "w1");
    assert_eq!(pool.state(), &vec!["w0", "w1", "w2"]);
}

fn run_args() -> ServerArgs {
    ServerArgs {
        address: "127.0.0.1:4000".to_string(),
        admin_address: Some("127.0.0.1:4001".to_string()),
        public_dir: None,
        dev: true,
        stderr_logging: true,
        disable_auth_ui: false,
        cors_allowed_origins: vec!["*".to_string()],
    }
}

#[test]
fn server_options_from_run_command() {
    let args = DefaultCommandLineArgs {
        data_dir: "traildepot".to_string(),
        cmd: Some(SubCommands::Run(run_args())),
    };
    let options = ServerOptions::try_from(args).unwrap();
    assert_eq!(options.data_dir, "traildepot");
    assert_eq!(options.address, "127.0.0.1:4000");
    assert_eq!(options.admin_address, Some("127.0.0.1:4001".to_string()));
    assert_eq!(options.public_dir, None);
    assert!(options.dev);
    assert!(!options.disable_auth_ui);
    assert_eq!(options.cors_allowed_origins, vec!["*".to_string()]);
}

#[test]
fn server_options_need_the_run_command() {
    let none = DefaultCommandLineArgs::default();
    assert_eq!(none.data_dir, "");
    assert!(none.cmd.is_none());
    assert_eq!(ServerOptions::try_from(none).unwrap_err(), NOT_RUN_COMMAND);

    let admin = DefaultCommandLineArgs {
        data_dir: "d".to_string(),
        cmd: Some(SubCommands::Admin { cmd: Some(AdminSubCommands::List) }),
    };
    assert_eq!(
        ServerOptions::try_from(admin).unwrap_err(),
        "Trying to initialize server w/o the \"run\" sub command being passed."
    );
}

#[test]
fn json_schema_mode_conversion() {
    assert_eq!(JsonSchemaMode::from(JsonSchemaModeArg::Insert), JsonSchemaMode::Insert);
    assert_eq!(JsonSchemaMode::from(JsonSchemaModeArg::Select), JsonSchemaMode::Select);
    assert_eq!(JsonSchemaMode::from(JsonSchemaModeArg::Update), JsonSchemaMode::Update);
}

#[test]
fn js_user_fields() {
    let user = JsUser {
        id: "AAAA".to_string(),
        email: "admin@localhost".to_string(),
        csrf: "token".to_string(),
    };
    assert_eq!(user.email, "admin@localhost");
}
