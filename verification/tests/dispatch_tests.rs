//! The command dispatcher: operation mapping, target names, rendering and
//! stream steps.

use ipfs_server::arguments::{
    cat_step, gc_line, get_target_name, ls_lines, ls_step, operation_of, pin_add_message,
    pin_ls_step, pin_mode_label, pin_rm_message, render_identity, CatStep, DagArg, DagCommand,
    DhtArg, DhtCommand, IpfsCommand, LsStep, NodeItem, NodeOperation, PeerInfo, PinArg,
    PinCommand, PinMode, RepoArg, RepoCommand,
};
use ipfs_server::codecs::{dag_json_text, ipld_scalar_string};
use ipfs_server::text::dec_u64;

#[test]
fn decimal_rendering_is_exact() {
    assert_eq!(dec_u64(0), "0");
    assert_eq!(dec_u64(7), "7");
    assert_eq!(dec_u64(42), "42");
    assert_eq!(dec_u64(300), "300");
    assert_eq!(dec_u64(u64::MAX), "18446744073709551615");
}

#[test]
fn every_command_maps_to_its_operation() {
    assert!(matches!(
        operation_of(IpfsCommand::Id { peer_id: None }),
        Some(NodeOperation::Identity { peer_id: None })
    ));
    match operation_of(IpfsCommand::Add { path: String::from("f.bin") }) {
        Some(NodeOperation::AddFileUnixfs { path }) => assert_eq!(path, "f.bin"),
        other => panic!("wrong operation: {:?}", other),
    }
    match operation_of(IpfsCommand::Ls { path: String::from("QmX/dir") }) {
        Some(NodeOperation::LsUnixfs { path }) => assert_eq!(path, "QmX/dir"),
        other => panic!("wrong operation: {:?}", other),
    }
    match operation_of(IpfsCommand::Cat { path: String::from("QmX/a") }) {
        Some(NodeOperation::CatUnixfs { path }) => assert_eq!(path, "QmX/a"),
        other => panic!("wrong operation: {:?}", other),
    }
    match operation_of(IpfsCommand::Dht(DhtArg {
        command: DhtCommand::Findpeer { peer_id: String::from("12D3Koo") },
    })) {
        Some(NodeOperation::FindPeer { peer_id }) => assert_eq!(peer_id, "12D3Koo"),
        other => panic!("wrong operation: {:?}", other),
    }
    match operation_of(IpfsCommand::Dht(DhtArg {
        command: DhtCommand::Findprovs { key: String::from("QmKey") },
    })) {
        Some(NodeOperation::GetProviders { key }) => assert_eq!(key, "QmKey"),
        other => panic!("wrong operation: {:?}", other),
    }
    assert!(matches!(
        operation_of(IpfsCommand::Repo(RepoArg { command: RepoCommand::Gc })),
        Some(NodeOperation::GarbageCollect)
    ));
    match operation_of(IpfsCommand::Pin(PinArg {
        recursive: false,
        command: PinCommand::Rm { path: String::from("QmPin") },
    })) {
        Some(NodeOperation::RemovePin { cid, recursive }) => {
            assert_eq!(cid, "QmPin");
            assert!(!recursive);
        },
        other => panic!("wrong operation: {:?}", other),
    }
    assert!(matches!(
        operation_of(IpfsCommand::Pin(PinArg { recursive: true, command: PinCommand::Ls })),
        Some(NodeOperation::ListPins)
    ));
}

#[test]
fn get_maps_with_target_from_path() {
    match operation_of(IpfsCommand::Get { path: String::from("QmX/dir/file.txt"), local: None }) {
        Some(NodeOperation::GetUnixfs { path, target }) => {
            assert_eq!(path, "QmX/dir/file.txt");
            assert_eq!(target, "file.txt");
        },
        other => panic!("wrong operation: {:?}", other),
    }
    assert!(matches!(
        operation_of(IpfsCommand::Get { path: String::from("///"), local: None }),
        None
    ));
}

#[test]
fn target_name_prefers_the_local_name() {
    assert_eq!(
        get_target_name("QmX/dir/file.txt", &Some(String::from("out.bin"))),
        Some(String::from("out.bin"))
    );
}

#[test]
fn target_name_is_the_last_segment_or_the_root() {
    assert_eq!(get_target_name("QmX/dir/file.txt", &None), Some(String::from("file.txt")));
    assert_eq!(get_target_name("QmX", &None), Some(String::from("QmX")));
    assert_eq!(get_target_name("/ipfs/QmX", &None), Some(String::from("QmX")));
    assert_eq!(get_target_name("QmX/dir/", &None), Some(String::from("dir")));
    assert_eq!(get_target_name("", &None), None);
    assert_eq!(get_target_name("///", &None), None);
}

#[test]
fn identity_rendering_lists_every_field() {
    let info = PeerInfo {
        peer_id: String::from("12D3KooPeer"),
        public_key: vec![1, 2],
        listen_addrs: vec![String::from("/ip4/127.0.0.1/tcp/4001"), String::from("/ip6/::1/tcp/4001")],
        agent_version: String::from("ipfs-server/0.1.0"),
        protocol_version: String::from("ipfs/0.1.0"),
        protocols: vec![String::from("/ipfs/kad/1.0.0")],
    };
    let lines = render_identity(&info);
    assert_eq!(
        lines,
        vec![
            String::from("PeerID: 12D3KooPeer"),
            String::from("Public Key: AQI="),
            String::from("Addresses:"),
            String::from("- /ip4/127.0.0.1/tcp/4001"),
            String::from("- /ip6/::1/tcp/4001"),
            String::from("Agent Version: ipfs-server/0.1.0"),
            String::from("Protocol Version: ipfs/0.1.0"),
            String::from("Protocols:"),
            String::from("- /ipfs/kad/1.0.0"),
        ]
    );
}

#[test]
fn listing_prints_files_skips_directories_stops_on_error() {
    let file = NodeItem::File {
        cid: String::from("QmF"),
        file: String::from("f.txt"),
        size: 42,
    };
    match ls_step(&file) {
        LsStep::Print(l) => assert_eq!(l, "QmF 42 f.txt"),
        other => panic!("wrong step: {:?}", other),
    }
    assert!(matches!(ls_step(&NodeItem::Directory), LsStep::Skip));
    assert!(matches!(ls_step(&NodeItem::RootDirectory), LsStep::Skip));
    match ls_step(&NodeItem::Error { error: String::from("boom") }) {
        LsStep::Stop(l) => assert_eq!(l, "Error listening item: boom"),
        other => panic!("wrong step: {:?}", other),
    }
}

#[test]
fn listing_consumption_stops_at_the_first_error() {
    let items = vec![
        NodeItem::RootDirectory,
        NodeItem::File { cid: String::from("QmA"), file: String::from("a.txt"), size: 1 },
        NodeItem::Directory,
        NodeItem::File { cid: String::from("QmB"), file: String::from("b.txt"), size: 2 },
        NodeItem::Error { error: String::from("boom") },
        NodeItem::File { cid: String::from("QmC"), file: String::from("c.txt"), size: 3 },
    ];
    assert_eq!(
        ls_lines(&items),
        vec![
            String::from("QmA 1 a.txt"),
            String::from("QmB 2 b.txt"),
            String::from("Error listening item: boom"),
        ]
    );
}

#[test]
fn cat_passes_bytes_through_and_stops_on_error() {
    match cat_step(Ok(vec![1, 2, 3])) {
        CatStep::Write(b) => assert_eq!(b, vec![1, 2, 3]),
        other => panic!("wrong step: {:?}", other),
    }
    match cat_step(Err(String::from("oops"))) {
        CatStep::Stop(l) => assert_eq!(l, "Error: oops"),
        other => panic!("wrong step: {:?}", other),
    }
}

#[test]
fn gc_reports_each_removed_block() {
    assert_eq!(gc_line("QmDead"), "removed QmDead");
}

#[test]
fn pin_modes_render_their_labels_and_nothing_else() {
    assert_eq!(pin_mode_label(PinMode::Direct), "direct");
    assert_eq!(pin_mode_label(PinMode::Indirect), "indirect");
    assert_eq!(pin_mode_label(PinMode::Recursive), "recursive");
}

#[test]
fn pin_confirmations_name_the_identifier() {
    assert_eq!(pin_add_message("QmFoo", true), "pinned QmFoo recursively");
    assert_eq!(pin_add_message("QmFoo", false), "pinned QmFoo ");
    assert_eq!(pin_rm_message("QmFoo"), "unpinned QmFoo");
}

#[test]
fn pin_listing_skips_failed_entries() {
    assert_eq!(
        pin_ls_step(Ok((String::from("QmPin"), PinMode::Indirect))),
        Some(String::from("QmPin indirect"))
    );
    assert_eq!(pin_ls_step(Err(String::from("gone"))), None);
}

#[test]
fn pin_add_recursive_end_to_end() {
    // "pin add <cid>" with the recursive flag maps to the pin operation and
    // confirms the identifier was pinned recursively.
    let command = IpfsCommand::Pin(PinArg {
        recursive: true,
        command: PinCommand::Add { path: String::from("QmFoo") },
    });
    match operation_of(command) {
        Some(NodeOperation::InsertPin { cid, recursive }) => {
            assert!(recursive);
            assert_eq!(pin_add_message(&cid, recursive), "pinned QmFoo recursively");
        },
        other => panic!("wrong operation: {:?}", other),
    }
}

#[test]
fn dag_put_and_get_round_trip_a_scalar() {
    // "dag put" hands the scalar payload to the store operation; the
    // content identifier the service answers with is printed as one line.
    let command = IpfsCommand::Dag(DagArg {
        command: DagCommand::Put { object: String::from("hello") },
    });
    let object = match operation_of(command) {
        Some(NodeOperation::PutDag { object }) => object,
        other => panic!("wrong operation: {:?}", other),
    };
    let cid_line = String::from("bafyreidykglsfhoixmivffc5uwhcgshx4j465xwqntbmu43nb2dzqwfvae");
    assert_eq!(cid_line.lines().count(), 1);
    // "dag get" of the stored value reproduces the scalar in its JSON-based
    // rendering.
    let stored = ipld_scalar_string(&object);
    assert_eq!(dag_json_text(&stored), Some(String::from("\"hello\"")));
}
