//! Session bookkeeping: how snapshots and the database are reconciled at start-up, when a
//! session or workspace may be deleted, and how stored tool results are found.

use vstd::prelude::*;

use crate::domain::SessionStatus;
use crate::records::{DeletionAudit, Session, ToolResultRecord, WorkspaceDirectory};
use crate::text::{
    char_count, concat2, concat3, extend_str, from_chars, owned, signed_decimal,
    signed_decimal_text, str_eq, texts, to_chars,
};
use crate::util::{now_rfc3339, sha256_hex, sha256_hex_of, utc_timestamp};

verus! {

/// How a session found on disk is reconciled with the database.
#[derive(Debug, Clone, Copy, PartialEq, Eq, Structural)]
pub enum RepairAction {
    /// The database lacks it: restore it from the snapshot.
    RestoreMissing,
    /// The snapshot is further along: restore the database from it.
    RestoreFromFile,
    /// The database is further along: rewrite the snapshot from it.
    RestoreFromDatabase,
    /// Same round, different content: rebuild the database from the snapshot.
    RebuildFromFile,
    /// Nothing to do.
    InSync,
}

/// How a snapshot and the database's record of the same session are reconciled: the one
/// further along wins; at the same round a different content hash means the snapshot wins.
pub open spec fn repair_action(file: Session, db: Option<Session>) -> RepairAction {
    match db {
        None => RepairAction::RestoreMissing,
        Some(d) => if file.last_round_no > d.last_round_no {
            RepairAction::RestoreFromFile
        } else if file.last_round_no < d.last_round_no {
            RepairAction::RestoreFromDatabase
        } else if file.content_hash@ != d.content_hash@ {
            RepairAction::RebuildFromFile
        } else {
            RepairAction::InSync
        },
    }
}

/// How a snapshot and the database's record of the same session are reconciled.
pub fn decide_repair(file: &Session, db: Option<&Session>) -> (res: RepairAction)
    ensures
        res == repair_action(
            *file,
            match db {
                Some(d) => Some(*d),
                None => None,
            },
        ),
{
    match db {
        None => RepairAction::RestoreMissing,
        Some(d) => {
            if file.last_round_no > d.last_round_no {
                RepairAction::RestoreFromFile
            } else if file.last_round_no < d.last_round_no {
                RepairAction::RestoreFromDatabase
            } else if !str_eq(file.content_hash.as_str(), d.content_hash.as_str()) {
                RepairAction::RebuildFromFile
            } else {
                RepairAction::InSync
            }
        },
    }
}

/// What start-up reconciliation did.
#[derive(Debug)]
pub struct RecoveryReport {
    /// Sessions restored into the database from snapshots.
    pub restored_from_file: usize,
    /// Snapshots rewritten from the database.
    pub restored_from_database: usize,
    /// Database records rebuilt from snapshots after a content conflict.
    pub rebuilt_database_from_file: usize,
    /// Conflicts left as they are.
    pub unresolved_conflicts: usize,
    /// One line per event.
    pub logs: Vec<String>,
}

/// The log line of a reconciliation, if it does something.
pub open spec fn repair_log(action: RepairAction, file: Session, db_round: i64, db_id: Seq<char>) -> Seq<
    char,
> {
    match action {
        RepairAction::RestoreMissing => "会话 "@ + file.id@ + "：数据库缺失，已根据文件快照恢复"@,
        RepairAction::RestoreFromFile => "会话 "@ + file.id@ + "：文件快照轮次 "@ + signed_decimal(
            file.last_round_no as int,
        ) + " 大于数据库轮次 "@ + signed_decimal(db_round as int) + "，已使用文件恢复数据库"@,
        RepairAction::RestoreFromDatabase => "会话 "@ + db_id + "：数据库轮次 "@ + signed_decimal(
            db_round as int,
        ) + " 大于文件快照轮次 "@ + signed_decimal(file.last_round_no as int)
            + "，已使用数据库回写文件快照"@,
        RepairAction::RebuildFromFile => "会话 "@ + file.id@
            + "：同轮次但 content_hash 不一致，已按文件快照重建数据库"@,
        RepairAction::InSync => Seq::empty(),
    }
}

/// The recovery log of a report written at time `now`.
pub open spec fn recovery_log(logs: Seq<Seq<char>>, now: Seq<char>) -> Seq<char> {
    if logs.len() == 0 {
        now + " 启动恢复完成，未发现冲突。\n"@
    } else {
        now + " 启动恢复完成：\n"@ + joined_lines(logs) + "\n"@
    }
}

/// The lines joined by line feeds.
pub open spec fn joined_lines(logs: Seq<Seq<char>>) -> Seq<char>
    decreases logs.len(),
{
    if logs.len() == 0 {
        Seq::empty()
    } else if logs.len() == 1 {
        logs[0]
    } else {
        joined_lines(logs.drop_last()) + "\n"@ + logs.last()
    }
}

impl RecoveryReport {
    /// An empty report.
    pub fn new() -> (res: RecoveryReport)
        ensures
            res.restored_from_file == 0,
            res.restored_from_database == 0,
            res.rebuilt_database_from_file == 0,
            res.unresolved_conflicts == 0,
            res.logs@.len() == 0,
    {
        RecoveryReport {
            restored_from_file: 0,
            restored_from_database: 0,
            rebuilt_database_from_file: 0,
            unresolved_conflicts: 0,
            logs: Vec::new(),
        }
    }

    /// Records a reconciliation of `file` with the database's record, of round `db_round`
    /// and identifier `db_id`: its counter goes up and its line is logged.
    pub fn record_repair(&mut self, action: RepairAction, file: &Session, db_round: i64, db_id: &str)
        requires
            old(self).restored_from_file < usize::MAX,
            old(self).restored_from_database < usize::MAX,
            old(self).rebuilt_database_from_file < usize::MAX,
        ensures
            final(self).restored_from_file == old(self).restored_from_file + (if action
                == RepairAction::RestoreMissing || action == RepairAction::RestoreFromFile {
                1int
            } else {
                0int
            }),
            final(self).restored_from_database == old(self).restored_from_database + (if action
                == RepairAction::RestoreFromDatabase {
                1int
            } else {
                0int
            }),
            final(self).rebuilt_database_from_file == old(self).rebuilt_database_from_file + (
            if action == RepairAction::RebuildFromFile {
                1int
            } else {
                0int
            }),
            final(self).unresolved_conflicts == old(self).unresolved_conflicts,
            action == RepairAction::InSync ==> texts(final(self).logs@) == texts(
                old(self).logs@,
            ),
            action != RepairAction::InSync ==> texts(final(self).logs@) == texts(
                old(self).logs@,
            ).push(repair_log(action, *file, db_round, db_id@)),
    {
        let ghost before = texts(self.logs@);
        let line = match action {
            RepairAction::RestoreMissing => {
                self.restored_from_file = self.restored_from_file + 1;
                concat3("会话 ", file.id.as_str(), "：数据库缺失，已根据文件快照恢复")
            },
            RepairAction::RestoreFromFile => {
                self.restored_from_file = self.restored_from_file + 1;
                let mut v = to_chars("会话 ");
                extend_str(&mut v, file.id.as_str());
                extend_str(&mut v, "：文件快照轮次 ");
                extend_str(&mut v, signed_decimal_text(file.last_round_no).as_str());
                extend_str(&mut v, " 大于数据库轮次 ");
                extend_str(&mut v, signed_decimal_text(db_round).as_str());
                extend_str(&mut v, "，已使用文件恢复数据库");
                from_chars(&v)
            },
            RepairAction::RestoreFromDatabase => {
                self.restored_from_database = self.restored_from_database + 1;
                let mut v = to_chars("会话 ");
                extend_str(&mut v, db_id);
                extend_str(&mut v, "：数据库轮次 ");
                extend_str(&mut v, signed_decimal_text(db_round).as_str());
                extend_str(&mut v, " 大于文件快照轮次 ");
                extend_str(&mut v, signed_decimal_text(file.last_round_no).as_str());
                extend_str(&mut v, "，已使用数据库回写文件快照");
                from_chars(&v)
            },
            RepairAction::RebuildFromFile => {
                self.rebuilt_database_from_file = self.rebuilt_database_from_file + 1;
                concat3(
                    "会话 ",
                    file.id.as_str(),
                    "：同轮次但 content_hash 不一致，已按文件快照重建数据库",
                )
            },
            RepairAction::InSync => {
                return ;
            },
        };
        self.logs.push(line);
        assert(texts(self.logs@) =~= before.push(repair_log(action, *file, db_round, db_id@)));
    }

    /// Records a session directory whose snapshot could not be read.
    pub fn record_unreadable(&mut self, session_dir: &str, error: &str)
        requires
            old(self).unresolved_conflicts < usize::MAX,
        ensures
            final(self).unresolved_conflicts == old(self).unresolved_conflicts + 1,
            final(self).restored_from_file == old(self).restored_from_file,
            final(self).restored_from_database == old(self).restored_from_database,
            final(self).rebuilt_database_from_file == old(self).rebuilt_database_from_file,
            texts(final(self).logs@) == texts(old(self).logs@).push(
                "会话目录 "@ + session_dir@ + "：读取快照失败，原因："@ + error@,
            ),
    {
        let ghost before = texts(self.logs@);
        self.unresolved_conflicts = self.unresolved_conflicts + 1;
        let mut v = to_chars("会话目录 ");
        extend_str(&mut v, session_dir);
        extend_str(&mut v, "：读取快照失败，原因：");
        extend_str(&mut v, error);
        self.logs.push(from_chars(&v));
        assert(texts(self.logs@) =~= before.push(
            "会话目录 "@ + session_dir@ + "：读取快照失败，原因："@ + error@,
        ));
    }

    /// Records a session that the database holds but whose snapshot is missing.
    pub fn record_missing_snapshot(&mut self, session_id: &str)
        requires
            old(self).unresolved_conflicts < usize::MAX,
        ensures
            final(self).unresolved_conflicts == old(self).unresolved_conflicts + 1,
            final(self).restored_from_file == old(self).restored_from_file,
            final(self).restored_from_database == old(self).restored_from_database,
            final(self).rebuilt_database_from_file == old(self).rebuilt_database_from_file,
            texts(final(self).logs@) == texts(old(self).logs@).push(
                "会话 "@ + session_id@ + "：数据库存在，但文件快照缺失，未自动伪造快照"@,
            ),
    {
        let ghost before = texts(self.logs@);
        self.unresolved_conflicts = self.unresolved_conflicts + 1;
        self.logs.push(
            concat3("会话 ", session_id, "：数据库存在，但文件快照缺失，未自动伪造快照"),
        );
        assert(texts(self.logs@) =~= before.push(
            "会话 "@ + session_id@ + "：数据库存在，但文件快照缺失，未自动伪造快照"@,
        ));
    }

    /// The recovery log of the report, written at time `now`.
    pub fn log_text(&self, now: &str) -> (res: String)
        ensures
            res@ == recovery_log(texts(self.logs@), now@),
    {
        if self.logs.len() == 0 {
            return concat2(now, " 启动恢复完成，未发现冲突。\n");
        }
        let mut v = to_chars(now);
        extend_str(&mut v, " 启动恢复完成：\n");
        let ghost prefix = v@;
        let mut i: usize = 0;
        while i < self.logs.len()
            invariant
                i <= self.logs@.len(),
                self.logs@.len() > 0,
                v@ == prefix + joined_lines(texts(self.logs@).take(i as int)),
            decreases self.logs.len() - i,
        {
            let ghost before = v@;
            if i > 0 {
                extend_str(&mut v, "\n");
            }
            extend_str(&mut v, self.logs[i].as_str());
            proof {
                let t = texts(self.logs@).take(i + 1);
                assert(t.drop_last() =~= texts(self.logs@).take(i as int));
                assert(t.last() == self.logs@[i as int]@);
                if i == 0 {
                    assert(texts(self.logs@).take(0) =~= Seq::<Seq<char>>::empty());
                    assert(t.len() == 1);
                }
            }
            i += 1;
        }
        assert(texts(self.logs@).take(self.logs@.len() as int) =~= texts(self.logs@));
        extend_str(&mut v, "\n");
        from_chars(&v)
    }
}

/// Marks a session as running a turn at time `now`.
pub fn begin_turn(session: &mut Session, now: String)
    ensures
        final(session).status == SessionStatus::Running,
        final(session).updated_at == now,
        final(session).round == old(session).round,
        final(session).id == old(session).id,
        final(session).last_round_no == old(session).last_round_no,
        final(session).content_hash == old(session).content_hash,
        final(session).snapshot_version == old(session).snapshot_version,
{
    session.status = SessionStatus::Running;
    session.updated_at = now;
}

/// Records a finished turn at time `now`: the round advances, becomes the last saved round,
/// the snapshot version advances, and the content hash is that of the messages' JSON text.
pub fn finish_turn(session: &mut Session, messages_json: &str, now: String)
    requires
        old(session).round < i64::MAX,
        old(session).snapshot_version < i64::MAX,
    ensures
        final(session).round == old(session).round + 1,
        final(session).status == SessionStatus::Finished,
        final(session).last_round_no == final(session).round,
        final(session).snapshot_version == old(session).snapshot_version + 1,
        final(session).content_hash@ == sha256_hex_of(messages_json@),
        final(session).updated_at == now,
        final(session).id == old(session).id,
        final(session).name == old(session).name,
        final(session).session_dir == old(session).session_dir,
        final(session).approval_mode == old(session).approval_mode,
{
    session.round = session.round + 1;
    session.status = SessionStatus::Finished;
    session.last_round_no = session.round;
    session.snapshot_version = session.snapshot_version + 1;
    session.content_hash = sha256_hex(messages_json);
    session.updated_at = now;
}

/// Cancels a running session's turn at time `now`; a session that is not running is left as
/// it is. Whether it was cancelled is returned.
pub fn cancel_turn(session: &mut Session, now: String) -> (res: bool)
    ensures
        res == (old(session).status == SessionStatus::Running),
        res ==> final(session).status == SessionStatus::Cancelled && final(session).updated_at
            == now && final(session).round == old(session).round && final(session).id == old(
            session,
        ).id,
        !res ==> *final(session) == *old(session),
{
    if session.status != SessionStatus::Running {
        return false;
    }
    session.status = SessionStatus::Cancelled;
    session.updated_at = now;
    true
}

/// Whether `key` names a workspace, by identifier, name or path.
pub fn workspace_matches_key(workspace: &WorkspaceDirectory, key: &str) -> (res: bool)
    ensures
        res == (workspace.id@ == key@ || workspace.project_name@ == key@
            || workspace.project_path@ == key@),
{
    str_eq(workspace.id.as_str(), key) || str_eq(workspace.project_name.as_str(), key) || str_eq(
        workspace.project_path.as_str(),
        key,
    )
}

/// Whether `key` names a session, by identifier or by name.
pub fn session_matches_key(session: &Session, key: &str) -> (res: bool)
    ensures
        res == (session.id@ == key@ || session.name@ == key@),
{
    str_eq(session.id.as_str(), key) || str_eq(session.name.as_str(), key)
}

/// A model may be chosen only from the allowed models.
pub fn check_model(allowed: &crate::settings::Settings, model: &str) -> (res: Result<(), String>)
    ensures
        res is Ok <==> crate::text::texts(allowed.allowed_models@).contains(model@),
        res matches Err(m) ==> m@ == "当前模型不在允许清单中："@ + model@,
{
    if allowed.is_allowed_model(model) {
        Ok(())
    } else {
        Err(concat2("当前模型不在允许清单中：", model))
    }
}

/// A new session's content hash: that of its system prompt.
pub fn initial_content_hash(session: &mut Session)
    ensures
        final(session).content_hash@ == sha256_hex_of(old(session).system_prompt@),
        final(session).system_prompt == old(session).system_prompt,
        final(session).id == old(session).id,
        final(session).round == old(session).round,
        final(session).status == old(session).status,
{
    session.content_hash = sha256_hex(session.system_prompt.as_str());
}

/// A session may be deleted unless it is running.
pub fn check_session_deletable(session: &Session) -> (res: Result<(), String>)
    ensures
        session.status != SessionStatus::Running ==> res is Ok,
        session.status == SessionStatus::Running ==> (res matches Err(msg) && msg@
            == "当前会话正在运行中，禁止删除："@ + session.name@),
{
    if session.status == SessionStatus::Running {
        Err(concat2("当前会话正在运行中，禁止删除：", session.name.as_str()))
    } else {
        Ok(())
    }
}

/// The first running session.
pub open spec fn first_running(sessions: Seq<Session>, i: int) -> Option<int>
    decreases sessions.len() - i,
{
    if i < 0 || i >= sessions.len() {
        None
    } else if sessions[i].status == SessionStatus::Running {
        Some(i)
    } else {
        first_running(sessions, i + 1)
    }
}

/// A workspace may be deleted unless one of its sessions is running; the error names the
/// first running one.
pub fn check_workspace_deletable(sessions: &Vec<Session>) -> (res: Result<(), String>)
    ensures
        match first_running(sessions@, 0) {
            None => res is Ok,
            Some(i) => res matches Err(msg) && msg@ == "存在运行中的会话，禁止删除工作区："@
                + sessions@[i].name@,
        },
{
    let mut i: usize = 0;
    while i < sessions.len()
        invariant
            i <= sessions@.len(),
            first_running(sessions@, 0) == first_running(sessions@, i as int),
        decreases sessions.len() - i,
    {
        if sessions[i].status == SessionStatus::Running {
            return Err(concat2("存在运行中的会话，禁止删除工作区：", sessions[i].name.as_str()));
        }
        i += 1;
    }
    Ok(())
}

/// The deletion audit of a session, with its snapshot as `payload_json`.
pub fn session_deletion_audit(
    session: &Session,
    artifact_missing: bool,
    operator: &str,
    payload_json: &str,
) -> (res: DeletionAudit)
    ensures
        res.target_type@ == "session"@,
        res.target_id@ == session.id@,
        res.delete_mode@ == "metadata_and_generated_artifacts"@,
        res.artifact_missing == artifact_missing,
        res.operator@ == operator@,
        res.payload_json@ == payload_json@,
        res.restored_at is None,
{
    DeletionAudit::new(
        "session",
        session.id.as_str(),
        "metadata_and_generated_artifacts",
        artifact_missing,
        operator,
        payload_json,
    )
}

/// The deletion audit of a workspace, with its snapshot as `payload_json`.
pub fn workspace_deletion_audit(
    workspace: &WorkspaceDirectory,
    operator: &str,
    payload_json: &str,
) -> (res: DeletionAudit)
    ensures
        res.target_type@ == "workspace_directory"@,
        res.target_id@ == workspace.id@,
        res.delete_mode@ == "metadata_and_generated_artifacts"@,
        !res.artifact_missing,
        res.operator@ == operator@,
        res.payload_json@ == payload_json@,
        res.restored_at is None,
{
    DeletionAudit::new(
        "workspace_directory",
        workspace.id.as_str(),
        "metadata_and_generated_artifacts",
        false,
        operator,
        payload_json,
    )
}

/// The workspace a session belongs to, as its snapshot records it.
pub fn workspace_from_session(session: &Session) -> (res: WorkspaceDirectory)
    ensures
        res.id == session.directory_id,
        res.project_name == session.project_name,
        res.project_path == session.project_path,
        res.created_at == session.created_at,
        res.updated_at == session.updated_at,
        !res.is_deleted,
{
    WorkspaceDirectory {
        id: session.directory_id.clone(),
        project_name: session.project_name.clone(),
        project_path: session.project_path.clone(),
        created_at: session.created_at.clone(),
        updated_at: session.updated_at.clone(),
        is_deleted: false,
    }
}

/// The workspace of the project at `project_path` (whose last component is `dir_name`, when
/// it has one), created at `now`: identified by the hash of its path and named after its
/// directory, or `workspace`.
pub fn workspace_directory_at(project_path: &str, dir_name: Option<&str>, now: &str) -> (res:
    WorkspaceDirectory)
    ensures
        res.id@ == sha256_hex_of(project_path@),
        res.project_name@ == match dir_name {
            Some(n) => n@,
            None => "workspace"@,
        },
        res.project_path@ == project_path@,
        res.created_at@ == now@,
        res.updated_at@ == now@,
        !res.is_deleted,
{
    WorkspaceDirectory {
        id: sha256_hex(project_path),
        project_name: match dir_name {
            Some(n) => owned(n),
            None => owned("workspace"),
        },
        project_path: owned(project_path),
        created_at: owned(now),
        updated_at: owned(now),
        is_deleted: false,
    }
}

/// The workspace of the project at `project_path` (see `workspace_directory_at`), created
/// now.
pub fn build_workspace_directory(project_path: &str, dir_name: Option<&str>) -> (res:
    WorkspaceDirectory)
    ensures
        res.id@ == sha256_hex_of(project_path@),
        res.project_name@ == match dir_name {
            Some(n) => n@,
            None => "workspace"@,
        },
        res.project_path@ == project_path@,
        res.created_at@ == res.updated_at@,
        utc_timestamp(res.created_at@),
        !res.is_deleted,
{
    let now = now_rfc3339();
    workspace_directory_at(project_path, dir_name, now.as_str())
}

/// The compaction boundary of a session's next round: `round-` and the round number.
pub fn working_memory_boundary(round: i64) -> (res: String)
    requires
        round < i64::MAX,
    ensures
        res@ == "round-"@ + signed_decimal(round + 1),
{
    let next = round + 1;
    concat2("round-", signed_decimal_text(next).as_str())
}

/// Where the full text of a stored result is: its file when it has one, else `None` for the
/// projection kept in the record.
pub fn result_body_file(record: &ToolResultRecord) -> (res: Option<String>)
    ensures
        record.body_file_path@.len() > 0 ==> res == Some(record.body_file_path),
        record.body_file_path@.len() == 0 ==> res is None,
{
    if char_count(record.body_file_path.as_str()) > 0 {
        Some(record.body_file_path.clone())
    } else {
        None
    }
}

/// The first record with the handle `handle`.
pub open spec fn first_with_handle(records: Seq<ToolResultRecord>, handle: Seq<char>, i: int) -> Option<
    int,
>
    decreases records.len() - i,
{
    if i < 0 || i >= records.len() {
        None
    } else if records[i].handle@ == handle {
        Some(i)
    } else {
        first_with_handle(records, handle, i + 1)
    }
}

/// Where the full text of a stored tool result is read from.
#[derive(Debug, PartialEq, Eq)]
pub enum ResultBody {
    /// The file that holds it.
    File(String),
    /// The text kept in the record itself.
    Inline(String),
}

/// Where a tool reading a stored result takes its full text from: its body file when it was
/// externalized, else the projection kept in the record (it goes by the flag, where
/// `result_body_file` goes by the path).
pub fn tool_result_body(record: &ToolResultRecord) -> (res: ResultBody)
    ensures
        record.externalized ==> (res matches ResultBody::File(p) && p@ == record.body_file_path@),
        !record.externalized ==> (res matches ResultBody::Inline(t) && t@
            == record.projection_content@),
{
    if record.externalized {
        ResultBody::File(record.body_file_path.clone())
    } else {
        ResultBody::Inline(record.projection_content.clone())
    }
}

/// The position of the first record with the handle `handle`.
pub fn find_by_handle(records: &Vec<ToolResultRecord>, handle: &str) -> (res: Option<usize>)
    ensures
        match first_with_handle(records@, handle@, 0) {
            Some(i) => res == Some(i as usize),
            None => res is None,
        },
{
    let mut i: usize = 0;
    while i < records.len()
        invariant
            i <= records@.len(),
            first_with_handle(records@, handle@, 0) == first_with_handle(records@, handle@, i as int),
        decreases records.len() - i,
    {
        if str_eq(records[i].handle.as_str(), handle) {
            return Some(i);
        }
        i += 1;
    }
    None
}

/// The first record of the call `id`, by identifier or by handle `tool:id`.
pub open spec fn first_for_call(records: Seq<ToolResultRecord>, id: Seq<char>, i: int) -> Option<int>
    decreases records.len() - i,
{
    if i < 0 || i >= records.len() {
        None
    } else if records[i].tool_call_id@ == id || records[i].handle@ == "tool:"@ + id {
        Some(i)
    } else {
        first_for_call(records, id, i + 1)
    }
}

/// The position of the first record of the call `tool_call_id`.
pub fn find_by_call_id(records: &Vec<ToolResultRecord>, tool_call_id: &str) -> (res: Option<usize>)
    ensures
        match first_for_call(records@, tool_call_id@, 0) {
            Some(i) => res == Some(i as usize),
            None => res is None,
        },
{
    let handle = concat2("tool:", tool_call_id);
    let mut i: usize = 0;
    while i < records.len()
        invariant
            i <= records@.len(),
            handle@ == "tool:"@ + tool_call_id@,
            first_for_call(records@, tool_call_id@, 0) == first_for_call(
                records@,
                tool_call_id@,
                i as int,
            ),
        decreases records.len() - i,
    {
        if str_eq(records[i].tool_call_id.as_str(), tool_call_id) || str_eq(
            records[i].handle.as_str(),
            handle.as_str(),
        ) {
            return Some(i);
        }
        i += 1;
    }
    None
}

} // verus!
