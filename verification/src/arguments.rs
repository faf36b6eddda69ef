//! The command surface and its dispatch rules.
//!
//! Each user command maps to exactly one node-service operation and one
//! rendering strategy. Long-running operations answer with streams; the
//! step functions here decide, item by item, what is printed, what is
//! skipped, and when consumption of a stream stops.

use vstd::prelude::*;
use vstd::string::{StrSliceExecFns, StringExecFns};
use crate::codecs::{b64_encode, b64_of};
use crate::text::{dec_u64, line, spec_dec};

verus! {

/// The closed set of user commands.
#[derive(Debug)]
pub enum IpfsCommand {
    /// Show info about a peer (the node itself when no peer is named).
    Id { peer_id: Option<String> },
    /// Publish a local file.
    Add { path: String },
    /// List directory contents under a content path.
    Ls { path: String },
    /// Pin objects to local storage.
    Pin(PinArg),
    /// Stream an object's bytes to the output sink.
    Cat { path: String },
    /// Materialize a content path to the local filesystem.
    Get { path: String, local: Option<String> },
    /// Interact with structured DAG objects.
    Dag(DagArg),
    /// Query the distributed hash table.
    Dht(DhtArg),
    /// Manipulate the local repository.
    Repo(RepoArg),
}

#[derive(Debug)]
pub struct RepoArg {
    pub command: RepoCommand,
}

#[derive(Debug)]
pub struct DhtArg {
    pub command: DhtCommand,
}

#[derive(Debug)]
pub struct DagArg {
    pub command: DagCommand,
}

#[derive(Debug)]
pub struct PinArg {
    /// Pins are recursive by default unless overridden.
    pub recursive: bool,
    pub command: PinCommand,
}

#[derive(Debug, PartialEq, Eq, Structural, Clone, Copy)]
pub enum RepoCommand {
    /// Sweep unreferenced local blocks.
    Gc,
}

#[derive(Debug)]
pub enum PinCommand {
    /// Pin an object.
    Add { path: String },
    /// List local pins.
    Ls,
    /// Remove an object from the pin list.
    Rm { path: String },
}

#[derive(Debug)]
pub enum DagCommand {
    /// Fetch a structured object by path.
    Get { path: String },
    /// Store a structured object from a string payload.
    Put { object: String },
}

#[derive(Debug)]
pub enum DhtCommand {
    /// Resolve the multiaddresses of a peer.
    Findpeer { peer_id: String },
    /// Resolve the providers of a content identifier.
    Findprovs { key: String },
}

/// The node-service operation a command dispatches to.
#[derive(Debug)]
#[allow(inconsistent_fields)]
pub enum NodeOperation {
    Identity { peer_id: Option<String> },
    AddFileUnixfs { path: String },
    LsUnixfs { path: String },
    CatUnixfs { path: String },
    GetUnixfs { path: String, target: String },
    GetDag { path: String },
    PutDag { object: String },
    FindPeer { peer_id: String },
    GetProviders { key: String },
    GarbageCollect,
    InsertPin { cid: String, recursive: bool },
    ListPins,
    RemovePin { cid: String, recursive: bool },
}

/// Every character of the text is a path separator (an empty text included).
pub open spec fn spec_all_slashes(s: Seq<char>) -> bool {
    forall|i: int| 0 <= i < s.len() ==> s[i] == '/'
}

/// `t` is the last nonempty `/`-separated segment of `s`.
pub open spec fn spec_is_last_segment(s: Seq<char>, t: Seq<char>) -> bool {
    exists|from: int, end: int|
        {
            &&& 0 <= from < end <= s.len()
            &&& t == s.subrange(from, end)
            &&& (forall|i: int| from <= i < end ==> s[i] != '/')
            &&& (forall|i: int| end <= i < s.len() ==> s[i] == '/')
            &&& (from == 0 || s[from - 1] == '/')
        }
}

/// The local file name a fetched path is saved under: the name the user
/// gave, or the path's last named segment, or the root content identifier
/// where the path has no named segments (then the root is itself the last
/// nonempty segment of the path text). A path with no nonempty segment
/// names no file: `None`.
pub fn get_target_name(path: &str, local: &Option<String>) -> (r: Option<String>)
    ensures
        match local {
            Some(l) => r matches Some(t) && t@ == l@,
            None => match r {
                Some(t) => spec_is_last_segment(path@, t@),
                None => spec_all_slashes(path@),
            },
        },
{
    if let Some(l) = local {
        return Some(String::from_str(l.as_str()));
    }
    let n = path.unicode_len();
    let mut end = n;
    while end > 0 && path.get_char(end - 1) == '/'
        invariant
            end <= n,
            n == path@.len(),
            forall|i: int| end <= i < n ==> path@[i] == '/',
        decreases end,
    {
        end = end - 1;
    }
    if end == 0 {
        return None;
    }
    let mut from = end - 1;
    while from > 0 && path.get_char(from - 1) != '/'
        invariant
            from < end <= n,
            n == path@.len(),
            forall|i: int| from <= i < end ==> path@[i] != '/',
        decreases from,
    {
        from = from - 1;
    }
    let segment = path.substring_char(from, end);
    Some(String::from_str(segment))
}

/// Maps a command to its node-service operation. `None` only for a fetch
/// whose path names no file to save under.
pub fn operation_of(command: IpfsCommand) -> (r: Option<NodeOperation>)
    ensures
        match command {
            IpfsCommand::Id { peer_id } => r == Some(NodeOperation::Identity { peer_id }),
            IpfsCommand::Add { path } => r == Some(NodeOperation::AddFileUnixfs { path }),
            IpfsCommand::Ls { path } => r == Some(NodeOperation::LsUnixfs { path }),
            IpfsCommand::Cat { path } => r == Some(NodeOperation::CatUnixfs { path }),
            IpfsCommand::Get { path, local } => {
                &&& (r matches Some(op) ==> op matches NodeOperation::GetUnixfs {
                    path: p,
                    target: t,
                } && p == path && match local {
                    Some(l) => t@ == l@,
                    None => spec_is_last_segment(path@, t@),
                })
                &&& (r is None ==> local is None && spec_all_slashes(path@))
            },
            IpfsCommand::Dag(a) => match a.command {
                DagCommand::Get { path } => r == Some(NodeOperation::GetDag { path }),
                DagCommand::Put { object } => r == Some(NodeOperation::PutDag { object }),
            },
            IpfsCommand::Dht(a) => match a.command {
                DhtCommand::Findpeer { peer_id } => r == Some(NodeOperation::FindPeer { peer_id }),
                DhtCommand::Findprovs { key } => r == Some(NodeOperation::GetProviders { key }),
            },
            IpfsCommand::Repo(a) => match a.command {
                RepoCommand::Gc => r == Some(NodeOperation::GarbageCollect),
            },
            IpfsCommand::Pin(a) => match a.command {
                PinCommand::Add { path } => r == Some(NodeOperation::InsertPin {
                    cid: path,
                    recursive: a.recursive,
                }),
                PinCommand::Ls => r == Some(NodeOperation::ListPins),
                PinCommand::Rm { path } => r == Some(NodeOperation::RemovePin {
                    cid: path,
                    recursive: a.recursive,
                }),
            },
        },
{
    match command {
        IpfsCommand::Id { peer_id } => Some(NodeOperation::Identity { peer_id }),
        IpfsCommand::Add { path } => Some(NodeOperation::AddFileUnixfs { path }),
        IpfsCommand::Ls { path } => Some(NodeOperation::LsUnixfs { path }),
        IpfsCommand::Cat { path } => Some(NodeOperation::CatUnixfs { path }),
        IpfsCommand::Get { path, local } => match get_target_name(path.as_str(), &local) {
            Some(target) => Some(NodeOperation::GetUnixfs { path, target }),
            None => None,
        },
        IpfsCommand::Dag(a) => match a.command {
            DagCommand::Get { path } => Some(NodeOperation::GetDag { path }),
            DagCommand::Put { object } => Some(NodeOperation::PutDag { object }),
        },
        IpfsCommand::Dht(a) => match a.command {
            DhtCommand::Findpeer { peer_id } => Some(NodeOperation::FindPeer { peer_id }),
            DhtCommand::Findprovs { key } => Some(NodeOperation::GetProviders { key }),
        },
        IpfsCommand::Repo(a) => match a.command {
            RepoCommand::Gc => Some(NodeOperation::GarbageCollect),
        },
        IpfsCommand::Pin(a) => match a.command {
            PinCommand::Add { path } => Some(NodeOperation::InsertPin {
                cid: path,
                recursive: a.recursive,
            }),
            PinCommand::Ls => Some(NodeOperation::ListPins),
            PinCommand::Rm { path } => Some(NodeOperation::RemovePin {
                cid: path,
                recursive: a.recursive,
            }),
        },
    }
}

/// What the identity query renders: peer id, public key, listen addresses,
/// agent and protocol versions, supported protocols.
pub struct PeerInfo {
    pub peer_id: String,
    /// The public key's binary-protobuf form.
    pub public_key: Vec<u8>,
    pub listen_addrs: Vec<String>,
    pub agent_version: String,
    pub protocol_version: String,
    pub protocols: Vec<String>,
}

/// The identity query's output lines: peer id, base64-encoded public key,
/// one line per listen address, agent and protocol versions, one line per
/// supported protocol.
pub fn render_identity(info: &PeerInfo) -> (r: Vec<String>)
    requires
        info.public_key@.len() <= usize::MAX / 4,
        info.listen_addrs@.len() + info.protocols@.len() + 6 <= usize::MAX,
    ensures
        r@.len() == 6 + info.listen_addrs@.len() + info.protocols@.len(),
        r@[0]@ == "PeerID: "@ + info.peer_id@,
        r@[1]@ == "Public Key: "@ + b64_of(info.public_key@),
        r@[2]@ == "Addresses:"@,
        forall|i: int|
            0 <= i < info.listen_addrs@.len() ==> r@[3 + i]@ == "- "@ + info.listen_addrs@[i]@,
        r@[3 + info.listen_addrs@.len() as int]@ == "Agent Version: "@ + info.agent_version@,
        r@[4 + info.listen_addrs@.len() as int]@ == "Protocol Version: "@ + info.protocol_version@,
        r@[5 + info.listen_addrs@.len() as int]@ == "Protocols:"@,
        forall|i: int|
            0 <= i < info.protocols@.len() ==> r@[6 + info.listen_addrs@.len() as int + i]@ == "- "@
                + info.protocols@[i]@,
{
    let mut r: Vec<String> = Vec::new();
    r.push(line("PeerID: ", info.peer_id.as_str()));
    let key_text = b64_encode(&info.public_key);
    r.push(line("Public Key: ", key_text.as_str()));
    r.push(String::from_str("Addresses:"));
    let mut i: usize = 0;
    while i < info.listen_addrs.len()
        invariant
            i <= info.listen_addrs@.len(),
            r@.len() == 3 + i,
            r@[0]@ == "PeerID: "@ + info.peer_id@,
            r@[1]@ == "Public Key: "@ + b64_of(info.public_key@),
            r@[2]@ == "Addresses:"@,
            forall|j: int| 0 <= j < i ==> r@[3 + j]@ == "- "@ + info.listen_addrs@[j]@,
        decreases info.listen_addrs@.len() - i,
    {
        r.push(line("- ", info.listen_addrs[i].as_str()));
        i = i + 1;
    }
    r.push(line("Agent Version: ", info.agent_version.as_str()));
    r.push(line("Protocol Version: ", info.protocol_version.as_str()));
    r.push(String::from_str("Protocols:"));
    let mut k: usize = 0;
    while k < info.protocols.len()
        invariant
            k <= info.protocols@.len(),
            i == info.listen_addrs@.len(),
            r@.len() == 6 + i + k,
            r@[0]@ == "PeerID: "@ + info.peer_id@,
            r@[1]@ == "Public Key: "@ + b64_of(info.public_key@),
            r@[2]@ == "Addresses:"@,
            forall|j: int| 0 <= j < i ==> r@[3 + j]@ == "- "@ + info.listen_addrs@[j]@,
            r@[3 + i]@ == "Agent Version: "@ + info.agent_version@,
            r@[4 + i]@ == "Protocol Version: "@ + info.protocol_version@,
            r@[5 + i]@ == "Protocols:"@,
            forall|j: int| 0 <= j < k ==> r@[6 + i + j]@ == "- "@ + info.protocols@[j]@,
        decreases info.protocols@.len() - k,
    {
        r.push(line("- ", info.protocols[k].as_str()));
        k = k + 1;
    }
    r
}

/// One item of a directory-listing stream.
#[derive(Debug)]
pub enum NodeItem {
    Directory,
    RootDirectory,
    File { cid: String, file: String, size: u64 },
    Error { error: String },
}

/// What the listing loop does with one stream item.
#[derive(Debug)]
pub enum LsStep {
    /// Directory and root entries are skipped.
    Skip,
    /// A file entry prints one line.
    Print(String),
    /// An error item prints a message and stops the stream.
    Stop(String),
}

/// The file line of a listing: identifier, size, name.
pub open spec fn spec_ls_file_line(cid: Seq<char>, size: nat, file: Seq<char>) -> Seq<char> {
    cid + " "@ + spec_dec(size) + " "@ + file
}

/// Decides one directory-listing stream item: skip directory markers,
/// print a line per file, stop with a message on an error item.
pub fn ls_step(item: &NodeItem) -> (r: LsStep)
    ensures
        match item {
            NodeItem::Directory => r is Skip,
            NodeItem::RootDirectory => r is Skip,
            NodeItem::File { cid, file, size } => r matches LsStep::Print(out) && out@
                == spec_ls_file_line(cid@, *size as nat, file@),
            NodeItem::Error { error } => r matches LsStep::Stop(out) && out@
                == "Error listening item: "@ + error@,
        },
{
    match item {
        NodeItem::Directory => LsStep::Skip,
        NodeItem::RootDirectory => LsStep::Skip,
        NodeItem::File { cid, file, size } => {
            let out = String::from_str(cid.as_str()).concat(" ").concat(dec_u64(*size).as_str())
                .concat(" ").concat(file.as_str());
            LsStep::Print(out)
        },
        NodeItem::Error { error } => LsStep::Stop(line("Error listening item: ", error.as_str())),
    }
}

/// The views of rendered lines.
pub open spec fn spec_views(lines: Seq<String>) -> Seq<Seq<char>> {
    Seq::new(lines.len(), |i: int| lines[i]@)
}

/// The lines a whole listing stream prints: directory markers contribute
/// nothing, each file its line, and the first error item its message —
/// after which consumption of the stream stops, whatever follows.
pub open spec fn spec_ls_lines(items: Seq<NodeItem>) -> Seq<Seq<char>>
    decreases items.len(),
{
    if items.len() == 0 {
        Seq::empty()
    } else {
        match items[0] {
            NodeItem::Directory => spec_ls_lines(items.drop_first()),
            NodeItem::RootDirectory => spec_ls_lines(items.drop_first()),
            NodeItem::File { cid, file, size } => seq![
                spec_ls_file_line(cid@, size as nat, file@),
            ] + spec_ls_lines(items.drop_first()),
            NodeItem::Error { error } => seq!["Error listening item: "@ + error@],
        }
    }
}

/// Consumes a listing stream item by item: one `ls_step` per item, with a
/// single failed item terminating consumption of the stream — not the
/// whole command.
pub fn ls_lines(items: &Vec<NodeItem>) -> (r: Vec<String>)
    ensures
        spec_views(r@) == spec_ls_lines(items@),
{
    let mut r: Vec<String> = Vec::new();
    let mut i: usize = 0;
    proof {
        assert(items@.skip(0) =~= items@);
    }
    while i < items.len()
        invariant
            i <= items@.len(),
            spec_views(r@) + spec_ls_lines(items@.skip(i as int)) =~= spec_ls_lines(items@),
        decreases items@.len() - i,
    {
        proof {
            assert(items@.skip(i as int)[0] == items@[i as int]);
            assert(items@.skip(i as int).drop_first() =~= items@.skip(i as int + 1));
        }
        match ls_step(&items[i]) {
            LsStep::Skip => {},
            LsStep::Print(out) => {
                let ghost prev = r@;
                r.push(out);
                proof {
                    assert(spec_views(r@) =~= spec_views(prev).push(r@.last()@));
                }
            },
            LsStep::Stop(out) => {
                let ghost prev = r@;
                r.push(out);
                proof {
                    assert(spec_views(r@) =~= spec_views(prev).push(r@.last()@));
                    assert(spec_views(r@) =~= spec_ls_lines(items@));
                }
                return r;
            },
        }
        i = i + 1;
    }
    proof {
        assert(spec_ls_lines(items@.skip(i as int)) =~= Seq::empty());
        assert(spec_views(r@) =~= spec_ls_lines(items@));
    }
    r
}

/// What the byte-stream loop does with one read result.
#[derive(Debug)]
pub enum CatStep {
    /// Bytes are written straight through to the output sink.
    Write(Vec<u8>),
    /// A read error prints a message and stops the stream.
    Stop(String),
}

/// Decides one byte-stream item: pass bytes through, stop with a message
/// on a read error (without aborting the whole command).
pub fn cat_step(item: Result<Vec<u8>, String>) -> (r: CatStep)
    ensures
        match item {
            Ok(bytes) => r == CatStep::Write(bytes),
            Err(e) => r matches CatStep::Stop(out) && out@ == "Error: "@ + e@,
        },
{
    match item {
        Ok(bytes) => CatStep::Write(bytes),
        Err(e) => CatStep::Stop(line("Error: ", e.as_str())),
    }
}

/// A removed block's line in the garbage-collection report.
pub fn gc_line(cid: &str) -> (r: String)
    ensures
        r@ == "removed "@ + cid@,
{
    line("removed ", cid)
}

/// How a pin retains its object.
#[derive(Debug, PartialEq, Eq, Structural, Clone, Copy)]
pub enum PinMode {
    Direct,
    Indirect,
    Recursive,
}

/// The display label of a pin mode: Direct is "direct", Indirect is
/// "indirect", Recursive is "recursive", and nothing else.
pub fn pin_mode_label(mode: PinMode) -> (r: String)
    ensures
        mode == PinMode::Direct <==> r@ == "direct"@,
        mode == PinMode::Indirect <==> r@ == "indirect"@,
        mode == PinMode::Recursive <==> r@ == "recursive"@,
{
    proof {
        reveal_strlit("direct");
        reveal_strlit("indirect");
        reveal_strlit("recursive");
        assert("direct"@.len() == 6);
        assert("indirect"@.len() == 8);
        assert("recursive"@.len() == 9);
    }
    match mode {
        PinMode::Direct => String::from_str("direct"),
        PinMode::Indirect => String::from_str("indirect"),
        PinMode::Recursive => String::from_str("recursive"),
    }
}

/// The confirmation printed after pinning: it names the identifier and,
/// for a recursive pin, states so.
pub fn pin_add_message(cid: &str, recursive: bool) -> (r: String)
    ensures
        recursive ==> r@ == "pinned "@ + cid@ + " recursively"@,
        !recursive ==> r@ == "pinned "@ + cid@ + " "@,
{
    let head = line("pinned ", cid);
    if recursive {
        head.concat(" recursively")
    } else {
        head.concat(" ")
    }
}

/// The confirmation printed after unpinning.
pub fn pin_rm_message(cid: &str) -> (r: String)
    ensures
        r@ == "unpinned "@ + cid@,
{
    line("unpinned ", cid)
}

/// Decides one pin-list stream item: an entry that failed to resolve is
/// silently skipped; a resolved entry prints its identifier and mode label.
pub fn pin_ls_step(item: Result<(String, PinMode), String>) -> (r: Option<String>)
    ensures
        match item {
            Ok((cid, mode)) => r matches Some(out) && out@ == cid@ + " "@ + (if mode
                == PinMode::Direct {
                "direct"@
            } else if mode == PinMode::Indirect {
                "indirect"@
            } else {
                "recursive"@
            }),
            Err(_) => r is None,
        },
{
    match item {
        Ok((cid, mode)) => {
            let label = pin_mode_label(mode);
            Some(String::from_str(cid.as_str()).concat(" ").concat(label.as_str()))
        },
        Err(_) => None,
    }
}

} // verus!
