use cilux::cli::{broker_request, Command};
use cilux::protocol::{
    BrokerRequest, KernelEventsTailRequest, SystemReadRequest, SystemReadSelector,
    TraceCategoriesRequest, TraceCategory, DEFAULT_BROKER_SOCKET,
};

/// The client's command line, as clap reads it.
fn command_line() -> clap::Command {
    let categories = || {
        clap::Arg::new("category")
            .long("category")
            .required(true)
            .action(clap::ArgAction::Append)
    };
    clap::Command::new("ciluxctl")
        .arg(
            clap::Arg::new("socket")
                .long("socket")
                .default_value(DEFAULT_BROKER_SOCKET),
        )
        .subcommand_required(true)
        .subcommand(clap::Command::new("trace-enable").arg(categories()))
        .subcommand(clap::Command::new("trace-disable").arg(categories()))
        .subcommand(
            clap::Command::new("system-read")
                .arg(clap::Arg::new("selector").long("selector").required(true)),
        )
}

fn parse(args: &[&str]) -> Result<Command, String> {
    let matches = command_line()
        .try_get_matches_from(args)
        .map_err(|e| e.to_string())?;
    let (name, sub) = matches.subcommand().ok_or("no subcommand")?;
    let categories = || -> Result<Vec<TraceCategory>, String> {
        sub.get_many::<String>("category")
            .ok_or("missing categories")?
            .map(|c| c.parse::<TraceCategory>().map_err(|e| e.message()))
            .collect()
    };
    match name {
        "trace-enable" => Ok(Command::TraceEnable { categories: categories()? }),
        "trace-disable" => Ok(Command::TraceDisable { categories: categories()? }),
        "system-read" => Ok(Command::SystemRead {
            selector: sub
                .get_one::<String>("selector")
                .ok_or("missing selector")?
                .parse::<SystemReadSelector>()
                .map_err(|e| e.message())?,
        }),
        other => Err(format!("unexpected subcommand {other}")),
    }
}

#[test]
fn repeated_trace_categories_parse() {
    let command = parse(&[
        "ciluxctl",
        "trace-enable",
        "--category",
        "module",
        "--category",
        "sched_process_exec",
    ])
    .expect("args should parse");

    assert_eq!(
        broker_request(command),
        BrokerRequest::TraceEnable(TraceCategoriesRequest {
            categories: vec![TraceCategory::Module, TraceCategory::SchedProcessExec],
        })
    );
}

#[test]
fn new_system_selectors_parse() {
    let parsed = [
        "proc_cmdline",
        "proc_version",
        "proc_softirqs",
        "proc_iomem",
        "proc_ioports",
        "proc_slabinfo",
    ]
    .into_iter()
    .map(|selector| {
        let command = parse(&["ciluxctl", "system-read", "--selector", selector])
            .expect("selector should parse");
        selector
            .parse::<SystemReadSelector>()
            .map(|selector| {
                broker_request(command) == BrokerRequest::SystemRead(SystemReadRequest { selector })
            })
            .expect("selector should round-trip")
    })
    .collect::<Vec<_>>();

    assert_eq!(parsed, vec![true; 6]);
}

#[test]
fn commands_map_to_their_requests() {
    assert_eq!(
        broker_request(Command::Events { limit: 32 }),
        BrokerRequest::KernelEventsTail(KernelEventsTailRequest { limit: 32 })
    );
    assert_eq!(
        broker_request(Command::TraceDisable { categories: vec![TraceCategory::MarkVictim] }),
        BrokerRequest::TraceDisable(TraceCategoriesRequest { categories: vec![TraceCategory::MarkVictim] })
    );
    assert!(parse(&["ciluxctl", "system-read", "--selector", "proc_nothing"]).is_err());
}
