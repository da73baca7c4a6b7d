use anchor::paths::{
    blob_path, checkpoint_data_dir, checkpoint_registry_path, default_registry_path, join,
    registry_path_under, snapshot_registry_path,
};
use anchor::{Command, Tree, Zone, VERSION};
use clap::builder::RangedU64ValueParser;
use clap::{Arg, ArgAction};

#[test]
fn verify_cli() {
    // Verify CLI structure is valid
    let mut cli = clap::Command::new("anchor")
        .version(VERSION)
        .arg(
            Arg::new("zone")
                .short('z')
                .long("zone")
                .global(true)
                .default_value(Zone::Standard.name()),
        )
        .arg(
            Arg::new("registry")
                .long("registry")
                .global(true)
                .env("ANCHOR_REGISTRY"),
        );
    for command in Command::all() {
        let sub = clap::Command::new(command.name());
        let session = Arg::new("session").short('s').long("session");
        let description = Arg::new("description").short('d').long("description");
        let json = Arg::new("json").long("json").action(ArgAction::SetTrue);
        let fork_id = Arg::new("fork_id").required(true);
        let sub = match command {
            Command::Fork => sub
                .arg(
                    Arg::new("network")
                        .short('n')
                        .long("network")
                        .default_value("mainnet"),
                )
                .arg(
                    Arg::new("block")
                        .short('b')
                        .long("block")
                        .value_parser(RangedU64ValueParser::<u64>::new()),
                )
                .arg(
                    Arg::new("port")
                        .short('p')
                        .long("port")
                        .value_parser(RangedU64ValueParser::<u16>::new()),
                )
                .arg(session),
            Command::Forks => sub.arg(json),
            Command::Kill => sub.arg(fork_id),
            Command::KillAll => sub,
            Command::Env => sub
                .arg(fork_id)
                .arg(Arg::new("export").long("export").action(ArgAction::SetTrue)),
            Command::Ground => sub.arg(Arg::new("path").required(true)),
            Command::Snapshot => sub.arg(fork_id).arg(session).arg(description),
            Command::Snapshots => sub.arg(fork_id).arg(session).arg(json),
            Command::Revert => sub
                .arg(fork_id)
                .arg(Arg::new("snapshot_id").required(true)),
            Command::Checkpoint => sub
                .arg(fork_id)
                .arg(session.required(true))
                .arg(description),
            Command::Checkpoints => sub
                .arg(Arg::new("session").required(true))
                .arg(json),
            Command::Restore => sub
                .arg(fork_id)
                .arg(Arg::new("checkpoint_id").required(true))
                .arg(session.required(true)),
            Command::Status => sub,
            Command::Version => sub,
        };
        cli = cli.subcommand(sub);
    }
    cli.debug_assert();
}

#[test]
fn test_zone_parsing() {
    let zone_str = "critical";
    let zone = match zone_str {
        "critical" => Zone::Critical,
        "elevated" => Zone::Elevated,
        "standard" => Zone::Standard,
        "local" => Zone::Local,
        _ => Zone::Standard,
    };
    assert_eq!(zone, Zone::Critical);
}

#[test]
fn test_default_registry_path() {
    let path = default_registry_path();
    assert!(path.contains("anchor"));
    assert!(path.contains("registry.json"));
}

#[test]
fn default_registry_path_is_under_the_data_directory() {
    assert_eq!(registry_path_under(None), "./anchor/registry.json");
    assert_eq!(
        registry_path_under(Some("/home/u/.local/share")),
        "/home/u/.local/share/anchor/registry.json"
    );
    assert_eq!(registry_path_under(Some("/data/")), "/data/anchor/registry.json");
    assert_eq!(registry_path_under(Some("")), "anchor/registry.json");
    let path = default_registry_path();
    assert!(path == "anchor/registry.json" || path.ends_with("/anchor/registry.json"));
    let home = dirs::data_local_dir().map(|dir| dir.to_string_lossy().into_owned());
    assert_eq!(path, registry_path_under(home.as_deref()));
}

#[test]
fn join_puts_one_separator_between() {
    assert_eq!(join("a", "b"), "a/b");
    assert_eq!(join("a/", "b"), "a/b");
    assert_eq!(join("", "b"), "b");
    assert_eq!(join("/", "b"), "/b");
}

#[test]
fn registry_paths_lie_beside_the_fork_registry() {
    assert_eq!(
        snapshot_registry_path("/d/anchor", "f1"),
        "/d/anchor/snapshots/f1.json"
    );
    assert_eq!(
        checkpoint_registry_path("/d/anchor", "task-7"),
        "/d/anchor/checkpoints/task-7.json"
    );
    assert_eq!(checkpoint_data_dir("/d/anchor"), "/d/anchor/checkpoints/data");
    assert_eq!(
        blob_path("/d/anchor/checkpoints/data", "c9"),
        "/d/anchor/checkpoints/data/c9.bin"
    );
}

#[test]
fn zone_names_parse_in_any_case() {
    for zone in [Zone::Critical, Zone::Elevated, Zone::Standard, Zone::Local] {
        assert_eq!(Zone::parse(zone.name()), Some(zone));
        assert_eq!(Zone::parse(&zone.name().to_uppercase()), Some(zone));
    }
    assert_eq!(Zone::parse("Elevated"), Some(Zone::Elevated));
    assert_eq!(Zone::parse("loCAL"), Some(Zone::Local));
    assert_eq!(Zone::parse("locals"), None);
    assert_eq!(Zone::parse(""), None);
}

#[test]
fn unknown_zone_falls_back_to_standard() {
    assert_eq!(Zone::parse_or_standard("critical"), (Zone::Critical, true));
    assert_eq!(Zone::parse_or_standard("STANDARD"), (Zone::Standard, true));
    assert_eq!(Zone::parse_or_standard("extreme"), (Zone::Standard, false));
}

#[test]
fn command_names_are_distinct_and_parse_back() {
    let all = Command::all();
    assert_eq!(all.len(), 14);
    for (i, a) in all.iter().enumerate() {
        assert_eq!(Command::parse(a.name()), Some(*a));
        for b in all.iter().skip(i + 1) {
            assert_ne!(a.name(), b.name());
        }
    }
    assert_eq!(Command::parse("kill-all"), Some(Command::KillAll));
    assert_eq!(Command::parse("Fork"), None);
    assert_eq!(Command::parse("killall"), None);
}

#[test]
fn each_command_works_on_one_tree() {
    assert_eq!(Command::Fork.tree(), Tree::Forks);
    assert_eq!(Command::Env.tree(), Tree::Forks);
    assert_eq!(Command::Snapshot.tree(), Tree::Snapshots);
    assert_eq!(Command::Snapshots.tree(), Tree::Snapshots);
    assert_eq!(Command::Revert.tree(), Tree::Snapshots);
    assert_eq!(Command::Checkpoint.tree(), Tree::Checkpoints);
    assert_eq!(Command::Checkpoints.tree(), Tree::Checkpoints);
    assert_eq!(Command::Restore.tree(), Tree::Checkpoints);
    let writers: Vec<Command> = Command::all().into_iter().filter(|c| c.mutates()).collect();
    assert_eq!(
        writers,
        vec![
            Command::Fork,
            Command::Kill,
            Command::KillAll,
            Command::Snapshot,
            Command::Revert,
            Command::Checkpoint,
        ]
    );
}

#[test]
fn version_is_set() {
    assert_eq!(VERSION, "0.1.0");
}
