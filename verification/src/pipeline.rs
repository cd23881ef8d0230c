//! What happens to each collected event before it is shown: the ignore lists,
//! the file-event deduplication, the table of known processes and the
//! classification.
use vstd::prelude::*;
use crate::detection::{
    Classifier, CtxView, Event, RuleKind, exe_view, folded_severity, matched_names, names_view,
};
use crate::filter::{DEDUP_WINDOW_NS, FileEventFilter, FileKey, FileKeyView, KeyVal, KeyValView};
use crate::model::{
    AppEvent, Classified, EventHeader, FileEvent, NetworkEvent, ProcessEvent, ProcessInfo,
};
use crate::path::{path_has_prefix, path_starts_with};
use crate::rules::Rules;
use crate::text::{has_prefix, str_starts_with};

verus! {

broadcast use vstd::std_specs::hash::group_hash_axioms;

/// The rules file drops events of this process: its pid is listed, its name
/// starts with a listed name, or its executable lies under a listed path
/// (each list counting only when enabled).
pub open spec fn ignored_by(r: Rules, pid: u32, comm: Seq<char>, exe: Seq<char>) -> bool {
    ||| (r.ignore_pids matches Some(c) && c.enabled
        && exists|i: int| 0 <= i < c.pids@.len() && #[trigger] c.pids@[i] == pid)
    ||| (r.ignore_comm_name matches Some(c) && c.enabled
        && exists|i: int| 0 <= i < c.names@.len() && has_prefix(comm, #[trigger] c.names@[i]@))
    ||| (r.ignore_exe_path matches Some(c) && c.enabled
        && exists|i: int| 0 <= i < c.paths@.len() && path_has_prefix(exe, #[trigger] c.paths@[i]@))
}

fn any_pid(v: &Vec<u32>, pid: u32) -> (res: bool)
    ensures
        res == exists|i: int| 0 <= i < v@.len() && #[trigger] v@[i] == pid,
{
    let mut i: usize = 0;
    while i < v.len()
        invariant
            i <= v@.len(),
            forall|j: int| 0 <= j < i ==> #[trigger] v@[j] != pid,
        decreases v.len() - i,
    {
        if v[i] == pid {
            return true;
        }
        i = i + 1;
    }
    false
}

fn any_name_prefix(v: &Vec<String>, comm: &str) -> (res: bool)
    ensures
        res == exists|i: int| 0 <= i < v@.len() && has_prefix(comm@, #[trigger] v@[i]@),
{
    let mut i: usize = 0;
    while i < v.len()
        invariant
            i <= v@.len(),
            forall|j: int| 0 <= j < i ==> !has_prefix(comm@, #[trigger] v@[j]@),
        decreases v.len() - i,
    {
        if str_starts_with(comm, v[i].as_str()) {
            assert(has_prefix(comm@, v@[i as int]@));
            return true;
        }
        i = i + 1;
    }
    false
}

fn any_path_prefix(v: &Vec<String>, exe: &str) -> (res: bool)
    ensures
        res == exists|i: int| 0 <= i < v@.len() && path_has_prefix(exe@, #[trigger] v@[i]@),
{
    let mut i: usize = 0;
    while i < v.len()
        invariant
            i <= v@.len(),
            forall|j: int| 0 <= j < i ==> !path_has_prefix(exe@, #[trigger] v@[j]@),
        decreases v.len() - i,
    {
        if path_starts_with(exe, v[i].as_str()) {
            assert(path_has_prefix(exe@, v@[i as int]@));
            return true;
        }
        i = i + 1;
    }
    false
}

/// Whether the rules file drops events of the process `pid` named `comm`
/// running `exe`.
pub fn is_ignored(rules: &Rules, pid: u32, comm: &str, exe: &str) -> (res: bool)
    ensures
        res == ignored_by(*rules, pid, comm@, exe@),
{
    let by_pid = match &rules.ignore_pids {
        Some(c) => c.enabled && any_pid(&c.pids, pid),
        None => false,
    };
    let by_name = match &rules.ignore_comm_name {
        Some(c) => c.enabled && any_name_prefix(&c.names, comm),
        None => false,
    };
    let by_exe = match &rules.ignore_exe_path {
        Some(c) => c.enabled && any_path_prefix(&c.paths, exe),
        None => false,
    };
    by_pid || by_name || by_exe
}

/// `c` is `e` classified by `rules` in the context `ctx`.
pub open spec fn classified_as<T>(c: Classified<T>, e: T, ev: Event, rules: Seq<RuleKind>, ctx: CtxView) -> bool {
    &&& c.event == e
    &&& c.severity == folded_severity(rules, ev, ctx)
    &&& names_view(c.matched_rules@) == matched_names(rules, ev, ctx)
}

/// The table of known processes is emptied once it holds this many.
pub const PROCESS_MAP_LIMIT: usize = 5000;

/// The known processes after one is recorded or refreshed: `pid` maps to the
/// given identity, every other entry stays.
pub open spec fn recorded(m0: Map<u32, ProcessInfo>, m1: Map<u32, ProcessInfo>, h: EventHeader, exe: Seq<char>) -> bool {
    &&& m1.dom() == m0.dom().insert(h.pid)
    &&& forall|k: u32| k != h.pid && #[trigger] m0.contains_key(k) ==> m1[k] == m0[k]
    &&& m1[h.pid].uid == h.uid
    &&& m1[h.pid].exe@ == exe
    &&& m1[h.pid].comm@ == h.comm@
}

/// The table once the size limit has been applied to `m`.
pub open spec fn bounded(m: Map<u32, ProcessInfo>) -> Map<u32, ProcessInfo> {
    if m.len() >= PROCESS_MAP_LIMIT { Map::empty() } else { m }
}

/// The process event, classified, as it is shown.
pub open spec fn process_outcome(rules: Seq<RuleKind>, ev: ProcessEvent, ctx: CtxView, out: AppEvent) -> bool {
    match ev {
        ProcessEvent::Start(e) => out matches AppEvent::ProcessStart(c) && classified_as(c, e, Event::ProcessStart(&e), rules, ctx),
        ProcessEvent::Fork(e) => out matches AppEvent::ProcessFork(c) && classified_as(c, e, Event::ProcessFork(&e), rules, ctx),
        ProcessEvent::Exit(e) => out matches AppEvent::ProcessExit(c) && classified_as(c, e, Event::ProcessExit(&e), rules, ctx),
    }
}

/// The file event, classified, as it is shown.
pub open spec fn file_outcome(rules: Seq<RuleKind>, ev: FileEvent, ctx: CtxView, out: AppEvent) -> bool {
    match ev {
        FileEvent::Open(e) => out matches AppEvent::FileOpen(c) && classified_as(c, e, Event::FileOpen(&e), rules, ctx),
        FileEvent::Read(e) => out matches AppEvent::FileRead(c) && classified_as(c, e, Event::FileRead(&e), rules, ctx),
        FileEvent::Close(e) => out matches AppEvent::FileClose(c) && classified_as(c, e, Event::FileClose(&e), rules, ctx),
        FileEvent::Write(e) => out matches AppEvent::FileWrite(c) && classified_as(c, e, Event::FileWrite(&e), rules, ctx),
        FileEvent::Delete(e) => out matches AppEvent::FileDelete(c) && classified_as(c, e, Event::FileDelete(&e), rules, ctx),
        FileEvent::Rename(e) => out matches AppEvent::FileRename(c) && classified_as(c, e, Event::FileRename(&e), rules, ctx),
    }
}

/// The network event, classified, as it is shown.
pub open spec fn network_outcome(rules: Seq<RuleKind>, ev: NetworkEvent, ctx: CtxView, out: AppEvent) -> bool {
    match ev {
        NetworkEvent::Connect(e) => out matches AppEvent::NetworkConnect(c) && classified_as(c, e, Event::NetworkConnect(&e), rules, ctx),
        NetworkEvent::Accept(e) => out matches AppEvent::NetworkAccept(c) && classified_as(c, e, Event::NetworkAccept(&e), rules, ctx),
        NetworkEvent::Close(e) => out matches AppEvent::NetworkClose(c) && classified_as(c, e, Event::NetworkClose(&e), rules, ctx),
        NetworkEvent::Bind(e) => out matches AppEvent::NetworkBind(c) && classified_as(c, e, Event::NetworkBind(&e), rules, ctx),
        NetworkEvent::Listen(e) => out matches AppEvent::NetworkListen(c) && classified_as(c, e, Event::NetworkListen(&e), rules, ctx),
    }
}

/// The deduplication key of a file event: by inode where it has one, else by
/// path where it has one; deletes and renames have neither.
pub open spec fn dedup_key_of(ev: FileEvent) -> Option<FileKeyView> {
    let h = ev.spec_header();
    match ev.spec_inode() {
        Some(i) => Some(FileKeyView { pid: h.pid, tid: h.tid, key: KeyValView::Inode(i), event_type: ev.spec_dedup_key() }),
        None => match ev.spec_file_path() {
            Some(p) => Some(FileKeyView { pid: h.pid, tid: h.tid, key: KeyValView::Path(p), event_type: ev.spec_dedup_key() }),
            None => None,
        },
    }
}

/// The filter drops the event: it has a key, and it comes from the watcher
/// itself or its key was let through less than a second before.
pub open spec fn deduplicated(f: FileEventFilter, ev: FileEvent, own_pid: u32, now_ns: u64) -> bool {
    match dedup_key_of(ev) {
        Some(k) => ev.spec_header().pid == own_pid
            || (f.entries().contains_key(k) && now_ns - f.entries()[k].last_seen < DEDUP_WINDOW_NS),
        None => false,
    }
}

impl Classifier {
    fn record(&mut self, header: &EventHeader, exe: &str)
        ensures
            recorded(old(self).process_map@, final(self).process_map@, *header, exe@),
            final(self).engine == old(self).engine,
            final(self).ipsum == old(self).ipsum,
            final(self).rules == old(self).rules,
    {
        let info = ProcessInfo { uid: header.uid, exe: exe.to_owned(), comm: header.comm.clone() };
        self.process_map.insert(header.pid, info);
        assert(self.process_map@.dom() =~= old(self).process_map@.dom().insert(header.pid));
    }

    fn enforce_limit(&mut self)
        ensures
            final(self).process_map@ == bounded(old(self).process_map@),
            final(self).engine == old(self).engine,
            final(self).ipsum == old(self).ipsum,
            final(self).rules == old(self).rules,
    {
        if self.process_map.len() >= PROCESS_MAP_LIMIT {
            self.process_map.clear();
        }
    }

    fn ignores(&self, header: &EventHeader, exe: &str) -> (res: bool)
        ensures
            res == (self.rules matches Some(r) && ignored_by(r, header.pid, header.comm@, exe@)),
    {
        match &self.rules {
            Some(r) => is_ignored(r, header.pid, header.comm.as_str(), exe),
            None => false,
        }
    }

    /// Handles a process event whose process runs `exe`: `None` when the rules
    /// file ignores the process; otherwise the process is recorded (and
    /// forgotten again on exit), the event is classified against that table,
    /// and the table is emptied once it reaches its limit.
    pub fn on_process_event(&mut self, event: ProcessEvent, exe: &str) -> (res: Option<AppEvent>)
        ensures
            final(self).engine == old(self).engine,
            final(self).ipsum == old(self).ipsum,
            final(self).rules == old(self).rules,
            (old(self).rules matches Some(r) && ignored_by(r, event.spec_header().pid, event.spec_header().comm@, exe@))
                ==> res is None && final(self).process_map@ == old(self).process_map@,
            !(old(self).rules matches Some(r) && ignored_by(r, event.spec_header().pid, event.spec_header().comm@, exe@))
                ==> exists|mid: Map<u32, ProcessInfo>| {
                    &&& recorded(old(self).process_map@, mid, event.spec_header(), exe@)
                    &&& {
                        let table = if event is Exit { mid.remove(event.spec_header().pid) } else { mid };
                        &&& final(self).process_map@ == bounded(table)
                        &&& res matches Some(out) && process_outcome(old(self).engine.rules@, event,
                            old(self).context(exe@).with_cache(exe_view(table)), out)
                    }
                },
    {
        if self.ignores(event.header(), exe) {
            return None;
        }
        self.record(event.header(), exe);
        let ghost mid = self.process_map@;
        let out = match event {
            ProcessEvent::Start(e) => AppEvent::ProcessStart(self.classify_process_start(e, exe)),
            ProcessEvent::Fork(e) => AppEvent::ProcessFork(self.classify_process_fork(e, exe)),
            ProcessEvent::Exit(e) => {
                self.process_map.remove(&e.header.pid);
                AppEvent::ProcessExit(self.classify_process_exit(e, exe))
            },
        };
        let ghost table = self.process_map@;
        assert(table == (if event is Exit { mid.remove(event.spec_header().pid) } else { mid }));
        self.enforce_limit();
        Some(out)
    }

    /// Handles a network event whose process runs `exe`: `None` when the rules
    /// file ignores the process; otherwise the process is recorded (and
    /// forgotten again on close), the event is classified against that table,
    /// and the table is emptied once it reaches its limit.
    pub fn on_network_event(&mut self, event: NetworkEvent, exe: &str) -> (res: Option<AppEvent>)
        ensures
            final(self).engine == old(self).engine,
            final(self).ipsum == old(self).ipsum,
            final(self).rules == old(self).rules,
            (old(self).rules matches Some(r) && ignored_by(r, event.spec_header().pid, event.spec_header().comm@, exe@))
                ==> res is None && final(self).process_map@ == old(self).process_map@,
            !(old(self).rules matches Some(r) && ignored_by(r, event.spec_header().pid, event.spec_header().comm@, exe@))
                ==> exists|mid: Map<u32, ProcessInfo>| {
                    &&& recorded(old(self).process_map@, mid, event.spec_header(), exe@)
                    &&& {
                        let table = if event is Close { mid.remove(event.spec_header().pid) } else { mid };
                        &&& final(self).process_map@ == bounded(table)
                        &&& res matches Some(out) && network_outcome(old(self).engine.rules@, event,
                            old(self).context(exe@).with_cache(exe_view(table)), out)
                    }
                },
    {
        if self.ignores(event.header(), exe) {
            return None;
        }
        self.record(event.header(), exe);
        let ghost mid = self.process_map@;
        let out = match event {
            NetworkEvent::Accept(e) => AppEvent::NetworkAccept(self.classify_accept(e, exe)),
            NetworkEvent::Connect(e) => AppEvent::NetworkConnect(self.classify_connect(e, exe)),
            NetworkEvent::Bind(e) => AppEvent::NetworkBind(self.classify_bind(e, exe)),
            NetworkEvent::Close(e) => {
                self.process_map.remove(&e.header.pid);
                AppEvent::NetworkClose(self.classify_network_close(e, exe))
            },
            NetworkEvent::Listen(e) => AppEvent::NetworkListen(self.classify_listen(e, exe)),
        };
        let ghost table = self.process_map@;
        assert(table == (if event is Close { mid.remove(event.spec_header().pid) } else { mid }));
        self.enforce_limit();
        Some(out)
    }

    /// Handles a file event whose process runs `exe`, seen at `now_ns` by the
    /// watcher process `own_pid`: `None` when the rules file ignores the
    /// process or the filter drops the event as a repeat; otherwise as for
    /// process events, a close forgetting the process.
    pub fn on_file_event(&mut self, filter: &mut FileEventFilter, event: FileEvent, exe: &str, own_pid: u32, now_ns: u64) -> (res: Option<AppEvent>)
        requires
            old(filter).wf(),
        ensures
            final(filter).wf(),
            final(self).engine == old(self).engine,
            final(self).ipsum == old(self).ipsum,
            final(self).rules == old(self).rules,
            final(filter).capacity() == old(filter).capacity(),
            (old(self).rules matches Some(r) && ignored_by(r, event.spec_header().pid, event.spec_header().comm@, exe@))
                ==> res is None && final(self).process_map@ == old(self).process_map@
                    && final(filter).entries() == old(filter).entries(),
            !(old(self).rules matches Some(r) && ignored_by(r, event.spec_header().pid, event.spec_header().comm@, exe@))
                && deduplicated(*old(filter), event, own_pid, now_ns)
                ==> res is None && final(self).process_map@ == old(self).process_map@,
            !(old(self).rules matches Some(r) && ignored_by(r, event.spec_header().pid, event.spec_header().comm@, exe@))
                && !deduplicated(*old(filter), event, own_pid, now_ns)
                ==> exists|mid: Map<u32, ProcessInfo>| {
                    &&& recorded(old(self).process_map@, mid, event.spec_header(), exe@)
                    &&& {
                        let table = if event is Close { mid.remove(event.spec_header().pid) } else { mid };
                        &&& final(self).process_map@ == bounded(table)
                        &&& res matches Some(out) && file_outcome(old(self).engine.rules@, event,
                            old(self).context(exe@).with_cache(exe_view(table)), out)
                    }
                },
            dedup_key_of(event) is None ==> final(filter).entries() == old(filter).entries(),
            !(old(self).rules matches Some(r) && ignored_by(r, event.spec_header().pid, event.spec_header().comm@, exe@))
                ==> (dedup_key_of(event) matches Some(k) ==> final(filter).checked(old(filter),
                    event.spec_header().pid == own_pid, k, now_ns, deduplicated(*old(filter), event, own_pid, now_ns))),
    {
        if self.ignores(event.header(), exe) {
            return None;
        }
        let key: Option<FileKey> = match event.inode() {
            Some(inode) => Some(FileKey {
                pid: event.header().pid,
                tid: event.header().tid,
                key: KeyVal::Inode(inode),
                event_type: event.dedup_key(),
            }),
            None => match event.file_path() {
                Some(p) => Some(FileKey {
                    pid: event.header().pid,
                    tid: event.header().tid,
                    key: KeyVal::Path(p.to_owned()),
                    event_type: event.dedup_key(),
                }),
                None => None,
            },
        };
        match key {
            Some(k) => {
                assert(dedup_key_of(event) == Some(k@));
                if filter.should_drop(&event, k, own_pid, now_ns) {
                    return None;
                }
            },
            None => {},
        }
        self.record(event.header(), exe);
        let ghost mid = self.process_map@;
        let out = match event {
            FileEvent::Open(e) => AppEvent::FileOpen(self.classify_open(e, exe)),
            FileEvent::Close(e) => {
                self.process_map.remove(&e.header.pid);
                AppEvent::FileClose(self.classify_close(e, exe))
            },
            FileEvent::Read(e) => AppEvent::FileRead(self.classify_read(e, exe)),
            FileEvent::Rename(e) => AppEvent::FileRename(self.classify_rename(e, exe)),
            FileEvent::Delete(e) => AppEvent::FileDelete(self.classify_delete(e, exe)),
            FileEvent::Write(e) => AppEvent::FileWrite(self.classify_write(e, exe)),
        };
        let ghost table = self.process_map@;
        assert(table == (if event is Close { mid.remove(event.spec_header().pid) } else { mid }));
        self.enforce_limit();
        Some(out)
    }
}

/// A list in the rules file drops nothing while it is absent or disabled: a
/// process is ignored only when an enabled list names it, by pid, by a prefix
/// of its name, or by a leading part of its executable's path; and every
/// process an enabled list names is ignored.
pub proof fn lemma_ignored_only_by_enabled_lists(r: Rules, pid: u32, comm: Seq<char>, exe: Seq<char>)
    ensures
        ignored_by(r, pid, comm, exe) <==> {
            ||| (r.ignore_pids matches Some(c) && c.enabled && c.pids@.contains(pid))
            ||| (r.ignore_comm_name matches Some(c) && c.enabled
                && exists|n: String| c.names@.contains(n) && #[trigger] has_prefix(comm, n@))
            ||| (r.ignore_exe_path matches Some(c) && c.enabled
                && exists|p: String| c.paths@.contains(p) && #[trigger] path_has_prefix(exe, p@))
        },
        (r.ignore_pids matches Some(c) ==> !c.enabled) && (r.ignore_comm_name matches Some(c) ==> !c.enabled)
            && (r.ignore_exe_path matches Some(c) ==> !c.enabled) ==> !ignored_by(r, pid, comm, exe),
{
    if let Some(c) = r.ignore_pids {
        if c.pids@.contains(pid) {
            let i = choose|i: int| 0 <= i < c.pids@.len() && c.pids@[i] == pid;
            assert(c.pids@[i] == pid);
        }
    }
    if let Some(c) = r.ignore_comm_name {
        if exists|i: int| 0 <= i < c.names@.len() && has_prefix(comm, #[trigger] c.names@[i]@) {
            let i = choose|i: int| 0 <= i < c.names@.len() && has_prefix(comm, #[trigger] c.names@[i]@);
            assert(c.names@.contains(c.names@[i]) && has_prefix(comm, c.names@[i]@));
        }
        if exists|n: String| c.names@.contains(n) && #[trigger] has_prefix(comm, n@) {
            let n = choose|n: String| c.names@.contains(n) && #[trigger] has_prefix(comm, n@);
            let i = choose|i: int| 0 <= i < c.names@.len() && c.names@[i] == n;
            assert(has_prefix(comm, c.names@[i]@));
        }
    }
    if let Some(c) = r.ignore_exe_path {
        if exists|i: int| 0 <= i < c.paths@.len() && path_has_prefix(exe, #[trigger] c.paths@[i]@) {
            let i = choose|i: int| 0 <= i < c.paths@.len() && path_has_prefix(exe, #[trigger] c.paths@[i]@);
            assert(c.paths@.contains(c.paths@[i]) && path_has_prefix(exe, c.paths@[i]@));
        }
        if exists|p: String| c.paths@.contains(p) && #[trigger] path_has_prefix(exe, p@) {
            let p = choose|p: String| c.paths@.contains(p) && #[trigger] path_has_prefix(exe, p@);
            let i = choose|i: int| 0 <= i < c.paths@.len() && c.paths@[i] == p;
            assert(path_has_prefix(exe, c.paths@[i]@));
        }
    }
}
} // verus!
