//! Checking whether an entity is qualified.
//!
//! The service that checks is sent a request and answers with a stream of messages.
//! [`QualificationTask`] decides what is done on each of them: which checks are announced,
//! which outcomes are recorded, and when the task ends. Whoever runs it carries the
//! actions out.
use crate::entity::{Entity, EntityModel};
use crate::error::{EntityError, EntityResult};
use crate::storable::{SiStorable, SiStorableModel};
use crate::text::texts;
use vstd::prelude::*;

verus! {

/// Asks for the qualifications of an entity in a system to be checked.
#[derive(Debug)]
pub struct CheckQualificationsRequest {
    pub system_id: String,
    pub entity: Entity,
}

/// A message of the service that checks.
#[derive(Debug)]
pub enum CheckQualificationsProtocol {
    ValidNames(Vec<String>),
    Start(String),
    Item(CheckQualificationsItem),
    Finished,
}

/// The outcome of one check.
#[derive(Debug)]
pub struct CheckQualificationsItem {
    pub name: String,
    pub qualified: bool,
    pub output: Option<String>,
    pub error: Option<String>,
}

/// What a check of qualifications is started with.
#[derive(Debug)]
pub struct QualificationCheck {
    pub entity: Entity,
    pub system_id: Option<String>,
    pub change_set_id: String,
    pub edit_session_id: String,
    pub workspace_id: String,
}

/// Announces that a check was started.
#[derive(Debug)]
pub struct QualificationStart {
    pub start: String,
    pub entity_id: String,
    pub change_set_id: String,
    pub edit_session_id: String,
    pub si_storable: SiStorable,
}

/// The outcome of a check, as it is to be recorded.
#[derive(Debug)]
pub struct NewQualification {
    pub entity_id: String,
    pub item: CheckQualificationsItem,
    pub change_set_id: String,
    pub edit_session_id: String,
    pub workspace_id: String,
}

/// What a check of qualifications is waiting for.
#[derive(Debug)]
pub enum QualificationPhase {
    Connecting,
    Sending,
    Receiving,
    Publishing,
    Opening(CheckQualificationsItem),
    Recording,
    CommittingTransaction,
    CommittingNats,
    Finished,
}

/// A check of qualifications on the way.
#[derive(Debug)]
pub struct QualificationTask {
    pub check: QualificationCheck,
    pub valid_names: Vec<String>,
    pub phase: QualificationPhase,
}

/// The answer to what a check of qualifications asked for. A message is missing where the
/// stream of messages ended.
#[derive(Debug)]
pub enum QualificationReply {
    Done,
    Message(Option<CheckQualificationsProtocol>),
}

/// What a check of qualifications asks for next, or its result. To connect is to get a
/// connection and begin a transaction on it; later transactions are begun on the same
/// connection.
#[derive(Debug)]
pub enum QualificationAction {
    Connect,
    BeginTransaction,
    Send(&'static str, CheckQualificationsRequest),
    Receive,
    Publish(QualificationStart),
    Record(NewQualification),
    CommitTransaction,
    CommitNats,
    Finish(EntityResult<()>),
}

#[verifier::ext_equal]
pub struct CheckQualificationsItemModel {
    pub name: Seq<char>,
    pub qualified: bool,
    pub output: Option<Seq<char>>,
    pub error: Option<Seq<char>>,
}

pub enum MessageModel {
    ValidNames(Seq<Seq<char>>),
    Start(Seq<char>),
    Item(CheckQualificationsItemModel),
    Finished,
}

#[verifier::ext_equal]
pub struct CheckQualificationsRequestModel {
    pub system_id: Seq<char>,
    pub entity: EntityModel,
}

#[verifier::ext_equal]
pub struct QualificationCheckModel {
    pub entity: EntityModel,
    pub system_id: Option<Seq<char>>,
    pub change_set_id: Seq<char>,
    pub edit_session_id: Seq<char>,
    pub workspace_id: Seq<char>,
}

#[verifier::ext_equal]
pub struct QualificationStartModel {
    pub start: Seq<char>,
    pub entity_id: Seq<char>,
    pub change_set_id: Seq<char>,
    pub edit_session_id: Seq<char>,
    pub si_storable: SiStorableModel,
}

#[verifier::ext_equal]
pub struct NewQualificationModel {
    pub entity_id: Seq<char>,
    pub item: CheckQualificationsItemModel,
    pub change_set_id: Seq<char>,
    pub edit_session_id: Seq<char>,
    pub workspace_id: Seq<char>,
}

pub enum QualificationPhaseModel {
    Connecting,
    Sending,
    Receiving,
    Publishing,
    Opening(CheckQualificationsItemModel),
    Recording,
    CommittingTransaction,
    CommittingNats,
    Finished,
}

#[verifier::ext_equal]
pub struct QualificationModel {
    pub check: QualificationCheckModel,
    pub valid_names: Seq<Seq<char>>,
    pub phase: QualificationPhaseModel,
}

pub enum QualificationReplyModel {
    Done,
    Message(Option<MessageModel>),
}

pub enum QualificationActionModel {
    Connect,
    BeginTransaction,
    Send(Seq<char>, CheckQualificationsRequestModel),
    Receive,
    Publish(QualificationStartModel),
    Record(NewQualificationModel),
    CommitTransaction,
    CommitNats,
    Finish(EntityResult<()>),
}

/// The text of an optional string.
pub open spec fn optional(string: Option<String>) -> Option<Seq<char>> {
    match string {
        Some(inner) => Some(inner@),
        None => None,
    }
}

impl View for CheckQualificationsItem {
    type V = CheckQualificationsItemModel;

    open spec fn view(&self) -> CheckQualificationsItemModel {
        CheckQualificationsItemModel {
            name: self.name@,
            qualified: self.qualified,
            output: optional(self.output),
            error: optional(self.error),
        }
    }
}

impl View for CheckQualificationsProtocol {
    type V = MessageModel;

    open spec fn view(&self) -> MessageModel {
        match self {
            CheckQualificationsProtocol::ValidNames(names) => MessageModel::ValidNames(
                texts(names@),
            ),
            CheckQualificationsProtocol::Start(name) => MessageModel::Start(name@),
            CheckQualificationsProtocol::Item(item) => MessageModel::Item(item@),
            CheckQualificationsProtocol::Finished => MessageModel::Finished,
        }
    }
}

impl View for CheckQualificationsRequest {
    type V = CheckQualificationsRequestModel;

    open spec fn view(&self) -> CheckQualificationsRequestModel {
        CheckQualificationsRequestModel { system_id: self.system_id@, entity: self.entity@ }
    }
}

impl View for QualificationCheck {
    type V = QualificationCheckModel;

    open spec fn view(&self) -> QualificationCheckModel {
        QualificationCheckModel {
            entity: self.entity@,
            system_id: optional(self.system_id),
            change_set_id: self.change_set_id@,
            edit_session_id: self.edit_session_id@,
            workspace_id: self.workspace_id@,
        }
    }
}

impl View for QualificationStart {
    type V = QualificationStartModel;

    open spec fn view(&self) -> QualificationStartModel {
        QualificationStartModel {
            start: self.start@,
            entity_id: self.entity_id@,
            change_set_id: self.change_set_id@,
            edit_session_id: self.edit_session_id@,
            si_storable: self.si_storable@,
        }
    }
}

impl View for NewQualification {
    type V = NewQualificationModel;

    open spec fn view(&self) -> NewQualificationModel {
        NewQualificationModel {
            entity_id: self.entity_id@,
            item: self.item@,
            change_set_id: self.change_set_id@,
            edit_session_id: self.edit_session_id@,
            workspace_id: self.workspace_id@,
        }
    }
}

impl View for QualificationPhase {
    type V = QualificationPhaseModel;

    open spec fn view(&self) -> QualificationPhaseModel {
        match self {
            QualificationPhase::Connecting => QualificationPhaseModel::Connecting,
            QualificationPhase::Sending => QualificationPhaseModel::Sending,
            QualificationPhase::Receiving => QualificationPhaseModel::Receiving,
            QualificationPhase::Publishing => QualificationPhaseModel::Publishing,
            QualificationPhase::Opening(item) => QualificationPhaseModel::Opening(item@),
            QualificationPhase::Recording => QualificationPhaseModel::Recording,
            QualificationPhase::CommittingTransaction =>
                QualificationPhaseModel::CommittingTransaction,
            QualificationPhase::CommittingNats => QualificationPhaseModel::CommittingNats,
            QualificationPhase::Finished => QualificationPhaseModel::Finished,
        }
    }
}

impl View for QualificationTask {
    type V = QualificationModel;

    open spec fn view(&self) -> QualificationModel {
        QualificationModel {
            check: self.check@,
            valid_names: texts(self.valid_names@),
            phase: self.phase@,
        }
    }
}

impl View for QualificationReply {
    type V = QualificationReplyModel;

    open spec fn view(&self) -> QualificationReplyModel {
        match self {
            QualificationReply::Done => QualificationReplyModel::Done,
            QualificationReply::Message(None) => QualificationReplyModel::Message(None),
            QualificationReply::Message(Some(message)) => QualificationReplyModel::Message(
                Some(message@),
            ),
        }
    }
}

impl View for QualificationAction {
    type V = QualificationActionModel;

    open spec fn view(&self) -> QualificationActionModel {
        match self {
            QualificationAction::Connect => QualificationActionModel::Connect,
            QualificationAction::BeginTransaction => QualificationActionModel::BeginTransaction,
            QualificationAction::Send(subject, request) => QualificationActionModel::Send(
                subject@,
                request@,
            ),
            QualificationAction::Receive => QualificationActionModel::Receive,
            QualificationAction::Publish(start) => QualificationActionModel::Publish(start@),
            QualificationAction::Record(qualification) => QualificationActionModel::Record(
                qualification@,
            ),
            QualificationAction::CommitTransaction => QualificationActionModel::CommitTransaction,
            QualificationAction::CommitNats => QualificationActionModel::CommitNats,
            QualificationAction::Finish(result) => QualificationActionModel::Finish(*result),
        }
    }
}

/// The model of an answer, or of the failure that came in its place.
pub open spec fn qualification_event(reply: EntityResult<QualificationReply>) -> EntityResult<
    QualificationReplyModel,
> {
    match reply {
        Ok(inner) => Ok(inner@),
        Err(error) => Err(error),
    }
}

impl EntityModel {
    /// What the check of an entity's qualifications is started with.
    pub open spec fn qualification_check(
        self,
        system_id: Option<Seq<char>>,
        change_set_id: Seq<char>,
        edit_session_id: Seq<char>,
    ) -> QualificationCheckModel {
        QualificationCheckModel {
            entity: self,
            system_id: system_id,
            change_set_id: change_set_id,
            edit_session_id: edit_session_id,
            workspace_id: self.si_storable.workspace_id,
        }
    }
}

impl QualificationCheckModel {
    /// What the service is asked for. Where no system is given it is the baseline.
    pub open spec fn request(self) -> CheckQualificationsRequestModel {
        CheckQualificationsRequestModel {
            system_id: match self.system_id {
                Some(system_id) => system_id,
                None => "baseline"@,
            },
            entity: self.entity,
        }
    }

    /// How the start of a check is announced.
    pub open spec fn announcement(self, name: Seq<char>) -> QualificationStartModel {
        QualificationStartModel {
            start: name,
            entity_id: self.entity.id,
            change_set_id: self.change_set_id,
            edit_session_id: self.edit_session_id,
            si_storable: SiStorableModel {
                stored_type: "qualificationStart"@,
                ..self.entity.si_storable
            },
        }
    }

    /// How the outcome of a check is recorded.
    pub open spec fn record(self, item: CheckQualificationsItemModel) -> NewQualificationModel {
        NewQualificationModel {
            entity_id: self.entity.id,
            item: item,
            change_set_id: self.change_set_id,
            edit_session_id: self.edit_session_id,
            workspace_id: self.workspace_id,
        }
    }
}

impl QualificationModel {
    /// The task in another phase.
    pub open spec fn to(self, phase: QualificationPhaseModel) -> QualificationModel {
        QualificationModel { phase: phase, ..self }
    }

    /// Whether the task can go on with an answer, or with a failure: one of the service
    /// that it waits for. A stream of messages does not fail, it only ends.
    pub open spec fn expects(self, event: EntityResult<QualificationReplyModel>) -> bool {
        match (self.phase, event) {
            (QualificationPhaseModel::Receiving, Ok(reply)) => reply is Message,
            (QualificationPhaseModel::Receiving, Err(_)) => false,
            (QualificationPhaseModel::Finished, _) => false,
            (_, Ok(reply)) => reply is Done,
            (QualificationPhaseModel::Connecting, Err(error)) => error.of_connection(),
            (QualificationPhaseModel::Sending, Err(error)) => error is Veritech,
            (QualificationPhaseModel::Publishing, Err(error)) => error is NatsTxn,
            (QualificationPhaseModel::Opening(_), Err(error)) => error is TokioPg,
            (QualificationPhaseModel::Recording, Err(error)) => error is Qualification,
            (QualificationPhaseModel::CommittingTransaction, Err(error)) => error is TokioPg,
            (QualificationPhaseModel::CommittingNats, Err(error)) => error is NatsTxn,
        }
    }
}

impl QualificationActionModel {
    /// Whether an answer is one to what was asked for.
    pub open spec fn answered_by(self, reply: QualificationReplyModel) -> bool {
        match self {
            QualificationActionModel::Receive => reply is Message,
            QualificationActionModel::Finish(_) => false,
            _ => reply is Done,
        }
    }

    /// Whether a failure is one that what was asked for can have.
    pub open spec fn fails_with(self, error: EntityError) -> bool {
        match self {
            QualificationActionModel::Connect => error.of_connection(),
            QualificationActionModel::Send(_, _) => error is Veritech,
            QualificationActionModel::Receive => false,
            QualificationActionModel::Publish(_) => error is NatsTxn,
            QualificationActionModel::BeginTransaction => error is TokioPg,
            QualificationActionModel::Record(_) => error is Qualification,
            QualificationActionModel::CommitTransaction => error is TokioPg,
            QualificationActionModel::CommitNats => error is NatsTxn,
            QualificationActionModel::Finish(_) => false,
        }
    }
}

/// A check of qualifications begins with a connection and a transaction.
pub open spec fn qualification_start(check: QualificationCheckModel) -> (
    QualificationModel,
    QualificationActionModel,
) {
    (
        QualificationModel {
            check: check,
            valid_names: Seq::empty(),
            phase: QualificationPhaseModel::Connecting,
        },
        QualificationActionModel::Connect,
    )
}

/// What a message leads to.
pub open spec fn qualification_message(model: QualificationModel, message: Option<MessageModel>) -> (
    QualificationModel,
    QualificationActionModel,
) {
    match message {
        Some(MessageModel::ValidNames(names)) => (
            QualificationModel { valid_names: names, ..model },
            QualificationActionModel::Receive,
        ),
        Some(MessageModel::Start(name)) => (
            model.to(QualificationPhaseModel::Publishing),
            QualificationActionModel::Publish(model.check.announcement(name)),
        ),
        Some(MessageModel::Item(item)) => (
            model.to(QualificationPhaseModel::Opening(item)),
            QualificationActionModel::BeginTransaction,
        ),
        Some(MessageModel::Finished) => (
            model.to(QualificationPhaseModel::Finished),
            QualificationActionModel::Finish(Ok(())),
        ),
        None => (
            model.to(QualificationPhaseModel::Finished),
            QualificationActionModel::Finish(Ok(())),
        ),
    }
}

/// What a check of qualifications makes of an answer that it expects.
pub open spec fn qualification_next(
    model: QualificationModel,
    event: EntityResult<QualificationReplyModel>,
) -> (QualificationModel, QualificationActionModel) {
    match (model.phase, event) {
        (_, Err(error)) => (
            model.to(QualificationPhaseModel::Finished),
            QualificationActionModel::Finish(Err(error)),
        ),
        (
            QualificationPhaseModel::Receiving,
            Ok(QualificationReplyModel::Message(message)),
        ) => qualification_message(model, message),
        (QualificationPhaseModel::Connecting, Ok(_)) => (
            model.to(QualificationPhaseModel::Sending),
            QualificationActionModel::Send("checkQualifications"@, model.check.request()),
        ),
        (QualificationPhaseModel::Opening(item), Ok(_)) => (
            model.to(QualificationPhaseModel::Recording),
            QualificationActionModel::Record(model.check.record(item)),
        ),
        (QualificationPhaseModel::Sending, Ok(_)) => (
            model.to(QualificationPhaseModel::CommittingTransaction),
            QualificationActionModel::CommitTransaction,
        ),
        (QualificationPhaseModel::Recording, Ok(_)) => (
            model.to(QualificationPhaseModel::CommittingTransaction),
            QualificationActionModel::CommitTransaction,
        ),
        (QualificationPhaseModel::CommittingTransaction, Ok(_)) => (
            model.to(QualificationPhaseModel::CommittingNats),
            QualificationActionModel::CommitNats,
        ),
        (QualificationPhaseModel::Publishing, Ok(_)) => (
            model.to(QualificationPhaseModel::CommittingNats),
            QualificationActionModel::CommitNats,
        ),
        (QualificationPhaseModel::CommittingNats, Ok(_)) => (
            model.to(QualificationPhaseModel::Receiving),
            QualificationActionModel::Receive,
        ),
        _ => arbitrary(),
    }
}

impl Entity {
    /// Says with what the qualifications of the entity are to be checked, in the
    /// background. The caller is told that the check is under way, whatever becomes of it.
    pub fn check_qualifications_for_edit_session(
        &self,
        system_id: Option<String>,
        change_set_id: &str,
        edit_session_id: &str,
    ) -> (started: (QualificationCheck, EntityResult<bool>))
        ensures
            started.0@ == self@.qualification_check(
                optional(system_id),
                change_set_id@,
                edit_session_id@,
            ),
            started.1 == Ok::<bool, EntityError>(true),
    {
        (
            QualificationCheck {
                entity: self.clone(),
                system_id: system_id,
                change_set_id: change_set_id.to_string(),
                edit_session_id: edit_session_id.to_string(),
                workspace_id: self.si_storable.workspace_id.clone(),
            },
            Ok(true),
        )
    }

    /// Begins to check the qualifications of an entity.
    pub fn task_check_qualifications_for_edit_session(check: QualificationCheck) -> (started: (QualificationTask, QualificationAction))
        ensures
            (started.0@, started.1@) == qualification_start(check@),
    {
        let valid_names: Vec<String> = Vec::new();
        assert(texts(valid_names@) =~= Seq::empty());
        (
            QualificationTask {
                check: check,
                valid_names: valid_names,
                phase: QualificationPhase::Connecting,
            },
            QualificationAction::Connect,
        )
    }
}

impl QualificationTask {
    fn to(self, phase: QualificationPhase) -> (task: QualificationTask)
        ensures
            task@ == self@.to(phase@),
    {
        QualificationTask { check: self.check, valid_names: self.valid_names, phase: phase }
    }

    fn request(&self) -> (request: CheckQualificationsRequest)
        ensures
            request@ == self@.check.request(),
    {
        CheckQualificationsRequest {
            system_id: match &self.check.system_id {
                Some(system_id) => system_id.clone(),
                None => "baseline".to_string(),
            },
            entity: self.check.entity.clone(),
        }
    }

    fn announcement(&self, name: String) -> (start: QualificationStart)
        ensures
            start@ == self@.check.announcement(name@),
    {
        let mut storable = self.check.entity.si_storable.clone();
        storable.stored_type = "qualificationStart".to_string();
        QualificationStart {
            start: name,
            entity_id: self.check.entity.id.clone(),
            change_set_id: self.check.change_set_id.clone(),
            edit_session_id: self.check.edit_session_id.clone(),
            si_storable: storable,
        }
    }

    fn record(&self, item: CheckQualificationsItem) -> (qualification: NewQualification)
        ensures
            qualification@ == self@.check.record(item@),
    {
        NewQualification {
            entity_id: self.check.entity.id.clone(),
            item: item,
            change_set_id: self.check.change_set_id.clone(),
            edit_session_id: self.check.edit_session_id.clone(),
            workspace_id: self.check.workspace_id.clone(),
        }
    }

    fn message(self, message: Option<CheckQualificationsProtocol>) -> (next: (QualificationTask, QualificationAction))
        ensures
            (next.0@, next.1@) == qualification_message(
                self@,
                match message {
                    Some(inner) => Some(inner@),
                    None => None,
                },
            ),
    {
        match message {
            Some(CheckQualificationsProtocol::ValidNames(names)) => (
                QualificationTask { check: self.check, valid_names: names, phase: self.phase },
                QualificationAction::Receive,
            ),
            Some(CheckQualificationsProtocol::Start(name)) => {
                let start = self.announcement(name);
                (self.to(QualificationPhase::Publishing), QualificationAction::Publish(start))
            },
            Some(CheckQualificationsProtocol::Item(item)) => (
                self.to(QualificationPhase::Opening(item)),
                QualificationAction::BeginTransaction,
            ),
            Some(CheckQualificationsProtocol::Finished) => (
                self.to(QualificationPhase::Finished),
                QualificationAction::Finish(Ok(())),
            ),
            None => (
                self.to(QualificationPhase::Finished),
                QualificationAction::Finish(Ok(())),
            ),
        }
    }

    /// Tells whether the task can go on with an answer, or with a failure.
    pub fn expects(&self, reply: &EntityResult<QualificationReply>) -> (expected: bool)
        ensures
            expected == self@.expects(qualification_event(*reply)),
    {
        match (&self.phase, reply) {
            (QualificationPhase::Receiving, Ok(QualificationReply::Message(_))) => true,
            (QualificationPhase::Receiving, _) => false,
            (QualificationPhase::Finished, _) => false,
            (_, Ok(QualificationReply::Done)) => true,
            (_, Ok(QualificationReply::Message(_))) => false,
            (QualificationPhase::Connecting, Err(error)) => error.is_of_connection(),
            (QualificationPhase::Sending, Err(EntityError::Veritech(_))) => true,
            (QualificationPhase::Publishing, Err(EntityError::NatsTxn(_))) => true,
            (QualificationPhase::Opening(_), Err(EntityError::TokioPg(_))) => true,
            (QualificationPhase::Recording, Err(EntityError::Qualification(_))) => true,
            (QualificationPhase::CommittingTransaction, Err(EntityError::TokioPg(_))) => true,
            (QualificationPhase::CommittingNats, Err(EntityError::NatsTxn(_))) => true,
            _ => false,
        }
    }

    /// Takes the answer to what was asked for last, and says what to do next.
    pub fn next(self, reply: EntityResult<QualificationReply>) -> (next: (QualificationTask, QualificationAction))
        requires
            self@.expects(qualification_event(reply)),
        ensures
            (next.0@, next.1@) == qualification_next(self@, qualification_event(reply)),
    {
        let reply = match reply {
            Ok(reply) => reply,
            Err(error) => {
                return (
                    self.to(QualificationPhase::Finished),
                    QualificationAction::Finish(Err(error)),
                );
            },
        };
        if let QualificationReply::Message(message) = reply {
            return self.message(message);
        }
        let QualificationTask { check, valid_names, phase } = self;
        let task = QualificationTask { check, valid_names, phase: QualificationPhase::Finished };
        match phase {
            QualificationPhase::Connecting => {
                let request = task.request();
                (
                    task.to(QualificationPhase::Sending),
                    QualificationAction::Send("checkQualifications", request),
                )
            },
            QualificationPhase::Opening(item) => {
                let qualification = task.record(item);
                (
                    task.to(QualificationPhase::Recording),
                    QualificationAction::Record(qualification),
                )
            },
            QualificationPhase::Sending => (
                task.to(QualificationPhase::CommittingTransaction),
                QualificationAction::CommitTransaction,
            ),
            QualificationPhase::Recording => (
                task.to(QualificationPhase::CommittingTransaction),
                QualificationAction::CommitTransaction,
            ),
            QualificationPhase::CommittingTransaction => (
                task.to(QualificationPhase::CommittingNats),
                QualificationAction::CommitNats,
            ),
            QualificationPhase::Publishing => (
                task.to(QualificationPhase::CommittingNats),
                QualificationAction::CommitNats,
            ),
            // What is left is the answer to the last commit of a round.
            _ => (task.to(QualificationPhase::Receiving), QualificationAction::Receive),
        }
    }
}

/// What a check of qualifications asks for on a run of answers, one after the other.
pub open spec fn qualification_trace(
    model: QualificationModel,
    events: Seq<EntityResult<QualificationReplyModel>>,
) -> Seq<QualificationActionModel>
    decreases events.len(),
{
    if events.len() == 0 {
        Seq::empty()
    } else {
        let (after, action) = qualification_next(model, events[0]);
        seq![action] + qualification_trace(after, events.drop_first())
    }
}

/// Each answer of a run is one that the task expects by then.
pub open spec fn qualification_runs(
    model: QualificationModel,
    events: Seq<EntityResult<QualificationReplyModel>>,
) -> bool
    decreases events.len(),
{
    events.len() > 0 ==> {
        &&& model.expects(events[0])
        &&& qualification_runs(qualification_next(model, events[0]).0, events.drop_first())
    }
}

/// The answer that carries a message.
pub open spec fn received(message: Option<MessageModel>) -> EntityResult<QualificationReplyModel> {
    Ok(QualificationReplyModel::Message(message))
}

/// The answer that says that something was carried out.
pub open spec fn carried_out() -> EntityResult<QualificationReplyModel> {
    Ok(QualificationReplyModel::Done)
}

/// The answers that a stream of messages comes with where nothing fails: the messages,
/// and between them that what each of them led to was carried out. The stream is read up
/// to its end, or to the message that says so.
pub open spec fn answers(messages: Seq<MessageModel>) -> Seq<EntityResult<QualificationReplyModel>>
    decreases messages.len(),
{
    if messages.len() == 0 {
        seq![received(None)]
    } else {
        let rest = messages.drop_first();
        match messages[0] {
            MessageModel::ValidNames(_) => seq![received(Some(messages[0]))] + answers(rest),
            MessageModel::Start(_) => seq![
                received(Some(messages[0])),
                carried_out(),
                carried_out(),
            ] + answers(rest),
            MessageModel::Item(_) => seq![
                received(Some(messages[0])),
                carried_out(),
                carried_out(),
                carried_out(),
                carried_out(),
            ] + answers(rest),
            MessageModel::Finished => seq![received(Some(messages[0]))],
        }
    }
}

/// What a stream of messages makes the task ask for. Each check that starts is announced;
/// each outcome is recorded in a transaction of its own.
pub open spec fn asked(check: QualificationCheckModel, messages: Seq<MessageModel>) -> Seq<
    QualificationActionModel,
>
    decreases messages.len(),
{
    if messages.len() == 0 {
        seq![QualificationActionModel::Finish(Ok(()))]
    } else {
        let rest = messages.drop_first();
        match messages[0] {
            MessageModel::ValidNames(_) => seq![QualificationActionModel::Receive] + asked(
                check,
                rest,
            ),
            MessageModel::Start(name) => seq![
                QualificationActionModel::Publish(check.announcement(name)),
                QualificationActionModel::CommitNats,
                QualificationActionModel::Receive,
            ] + asked(check, rest),
            MessageModel::Item(item) => seq![
                QualificationActionModel::BeginTransaction,
                QualificationActionModel::Record(check.record(item)),
                QualificationActionModel::CommitTransaction,
                QualificationActionModel::CommitNats,
                QualificationActionModel::Receive,
            ] + asked(check, rest),
            MessageModel::Finished => seq![QualificationActionModel::Finish(Ok(()))],
        }
    }
}

proof fn first_answer(
    model: QualificationModel,
    event: EntityResult<QualificationReplyModel>,
    rest: Seq<EntityResult<QualificationReplyModel>>,
)
    ensures
        qualification_trace(model, seq![event] + rest) == seq![
            qualification_next(model, event).1,
        ] + qualification_trace(qualification_next(model, event).0, rest),
        qualification_runs(model, seq![event] + rest) == (model.expects(event)
            && qualification_runs(qualification_next(model, event).0, rest)),
{
    assert((seq![event] + rest).drop_first() =~= rest);
}

/// A task that waits for messages does on a stream of them what the messages ask for, and
/// is finished when the stream is.
pub proof fn law_qualification_messages(model: QualificationModel, messages: Seq<MessageModel>)
    requires
        model.phase is Receiving,
    ensures
        qualification_runs(model, answers(messages)),
        qualification_trace(model, answers(messages)) == asked(model.check, messages),
    decreases messages.len(),
{
    let none = Seq::<EntityResult<QualificationReplyModel>>::empty();
    let done = carried_out();
    if messages.len() == 0 {
        assert(answers(messages) =~= seq![received(None)] + none);
        first_answer(model, received(None), none);
        assert(qualification_trace(model, answers(messages)) =~= asked(model.check, messages));
    } else {
        let message = received(Some(messages[0]));
        let rest = messages.drop_first();
        let m1 = qualification_next(model, message).0;
        match messages[0] {
            MessageModel::ValidNames(_) => {
                first_answer(model, message, answers(rest));
                law_qualification_messages(m1, rest);
            },
            MessageModel::Start(_) => {
                let m2 = qualification_next(m1, done).0;
                let m3 = qualification_next(m2, done).0;
                let e2 = seq![done] + answers(rest);
                let e1 = seq![done] + e2;
                assert(answers(messages) =~= seq![message] + e1);
                first_answer(model, message, e1);
                first_answer(m1, done, e2);
                first_answer(m2, done, answers(rest));
                law_qualification_messages(m3, rest);
                assert(qualification_trace(model, answers(messages)) =~= asked(
                    model.check,
                    messages,
                ));
            },
            MessageModel::Item(_) => {
                let m2 = qualification_next(m1, done).0;
                let m3 = qualification_next(m2, done).0;
                let m4 = qualification_next(m3, done).0;
                let m5 = qualification_next(m4, done).0;
                let e4 = seq![done] + answers(rest);
                let e3 = seq![done] + e4;
                let e2 = seq![done] + e3;
                let e1 = seq![done] + e2;
                assert(answers(messages) =~= seq![message] + e1);
                first_answer(model, message, e1);
                first_answer(m1, done, e2);
                first_answer(m2, done, e3);
                first_answer(m3, done, e4);
                first_answer(m4, done, answers(rest));
                law_qualification_messages(m5, rest);
                assert(qualification_trace(model, answers(messages)) =~= asked(
                    model.check,
                    messages,
                ));
            },
            MessageModel::Finished => {
                assert(answers(messages) =~= seq![message] + none);
                first_answer(model, message, none);
                assert(qualification_trace(model, answers(messages)) =~= asked(
                    model.check,
                    messages,
                ));
            },
        }
    }
}

/// From its start a task sends its request, commits, and then does on the messages what
/// they ask for.
pub proof fn law_qualification_task(check: QualificationCheckModel, messages: Seq<MessageModel>)
    ensures
        qualification_start(check).1 is Connect,
        qualification_runs(
            qualification_start(check).0,
            seq![carried_out(), carried_out(), carried_out(), carried_out()] + answers(messages),
        ),
        qualification_trace(
            qualification_start(check).0,
            seq![carried_out(), carried_out(), carried_out(), carried_out()] + answers(messages),
        ) == seq![
            QualificationActionModel::Send("checkQualifications"@, check.request()),
            QualificationActionModel::CommitTransaction,
            QualificationActionModel::CommitNats,
            QualificationActionModel::Receive,
        ] + asked(check, messages),
{
    let done = carried_out();
    let m0 = qualification_start(check).0;
    let m1 = qualification_next(m0, done).0;
    let m2 = qualification_next(m1, done).0;
    let m3 = qualification_next(m2, done).0;
    let m4 = qualification_next(m3, done).0;
    let e3 = seq![done] + answers(messages);
    let e2 = seq![done] + e3;
    let e1 = seq![done] + e2;
    assert(seq![done, done, done, done] + answers(messages) =~= seq![done] + e1);
    first_answer(m0, done, e1);
    first_answer(m1, done, e2);
    first_answer(m2, done, e3);
    first_answer(m3, done, answers(messages));
    law_qualification_messages(m4, messages);
    assert(qualification_trace(m0, seq![done] + e1) =~= seq![
        QualificationActionModel::Send("checkQualifications"@, check.request()),
        QualificationActionModel::CommitTransaction,
        QualificationActionModel::CommitNats,
        QualificationActionModel::Receive,
    ] + asked(check, messages));
}

/// What comes after the message that says that the checks are finished is not acted on,
/// nor read.
pub proof fn law_qualification_stops(
    check: QualificationCheckModel,
    messages: Seq<MessageModel>,
    late: Seq<MessageModel>,
)
    ensures
        asked(check, messages.push(MessageModel::Finished) + late) == asked(check, messages),
        answers(messages.push(MessageModel::Finished) + late) == answers(
            messages.push(MessageModel::Finished),
        ),
    decreases messages.len(),
{
    let whole = messages.push(MessageModel::Finished) + late;
    if messages.len() > 0 {
        assert(whole.drop_first() =~= messages.drop_first().push(MessageModel::Finished) + late);
        assert(messages.push(MessageModel::Finished).drop_first()
            =~= messages.drop_first().push(MessageModel::Finished));
        law_qualification_stops(check, messages.drop_first(), late);
    }
}

proof fn names_unread(
    model: QualificationModel,
    names: Seq<Seq<char>>,
    events: Seq<EntityResult<QualificationReplyModel>>,
)
    ensures
        ({
            let named = QualificationModel { valid_names: names, ..model };
            &&& qualification_trace(named, events) == qualification_trace(model, events)
            &&& qualification_runs(named, events) == qualification_runs(model, events)
        }),
    decreases events.len(),
{
    let named = QualificationModel { valid_names: names, ..model };
    if events.len() > 0 {
        let after = qualification_next(model, events[0]).0;
        let named_after = qualification_next(named, events[0]).0;
        names_unread(after, named_after.valid_names, events.drop_first());
        assert(named_after == QualificationModel { valid_names: named_after.valid_names, ..after });
    }
}

/// The names of the checks are taken note of, and nothing else comes of them: whatever the
/// answers after them are, failures included, the task asks for what it would have asked
/// for without them.
pub proof fn law_qualification_names_lead_to_nothing(
    model: QualificationModel,
    names: Seq<Seq<char>>,
    events: Seq<EntityResult<QualificationReplyModel>>,
)
    requires
        model.phase is Receiving,
    ensures
        ({
            let named = seq![received(Some(MessageModel::ValidNames(names)))] + events;
            &&& qualification_trace(model, named) == seq![QualificationActionModel::Receive]
                + qualification_trace(model, events)
            &&& qualification_runs(model, named) <==> qualification_runs(model, events)
        }),
{
    first_answer(model, received(Some(MessageModel::ValidNames(names))), events);
    names_unread(model, names, events);
}

/// Whether an answer is one that a task ends with: a failure, the end of the stream of
/// messages, or the message that says that the checks are finished.
pub open spec fn ends_a_task(event: EntityResult<QualificationReplyModel>) -> bool {
    match event {
        Err(_) => true,
        Ok(QualificationReplyModel::Message(None)) => true,
        Ok(QualificationReplyModel::Message(Some(message))) => message is Finished,
        Ok(QualificationReplyModel::Done) => false,
    }
}

/// A task ends with the first failure, with the end of the stream, or with the message that
/// says that the checks are finished, and with nothing else. No answer is taken after that.
pub proof fn law_qualification_ends_once(
    model: QualificationModel,
    events: Seq<EntityResult<QualificationReplyModel>>,
    i: int,
)
    requires
        qualification_runs(model, events),
        0 <= i < events.len(),
    ensures
        qualification_trace(model, events).len() == events.len(),
        qualification_trace(model, events)[i] is Finish <==> ends_a_task(events[i]),
        ends_a_task(events[i]) ==> {
            &&& i == events.len() - 1
            &&& qualification_trace(model, events)[i] == QualificationActionModel::Finish(
                match events[i] {
                    Ok(_) => Ok(()),
                    Err(error) => Err(error),
                },
            )
        },
    decreases events.len(),
{
    reveal_with_fuel(qualification_trace, 2);
    reveal_with_fuel(qualification_runs, 2);
    let after = qualification_next(model, events[0]).0;
    let rest = events.drop_first();
    if rest.len() > 0 {
        law_qualification_ends_once(after, rest, if i > 0 { i - 1 } else { 0 });
    }
}

/// A failure ends the task with that failure.
pub proof fn law_qualification_fails_at_once(model: QualificationModel, error: EntityError)
    requires
        model.expects(Err(error)),
    ensures
        qualification_next(model, Err(error)) == (
            QualificationModel {
                check: model.check,
                valid_names: model.valid_names,
                phase: QualificationPhaseModel::Finished,
            },
            QualificationActionModel::Finish(Err(error)),
        ),
{
}

/// A task that was just begun waits for the answer to what it asked for, or for a failure of
/// the service that it asked.
pub proof fn law_qualification_waits_at_first(check: QualificationCheckModel)
    ensures
        ({
            let (start, action) = qualification_start(check);
            &&& forall|reply: QualificationReplyModel|
                #[trigger] start.expects(Ok(reply)) <==> action.answered_by(reply)
            &&& forall|error: EntityError|
                #[trigger] start.expects(Err(error)) <==> action.fails_with(error)
        }),
{
}

/// A task waits for the answer to what it asked for last, or for a failure of the service
/// that it asked, and for nothing else, until it is finished.
pub proof fn law_qualification_waits_for_the_answer(
    model: QualificationModel,
    event: EntityResult<QualificationReplyModel>,
)
    requires
        model.expects(event),
    ensures
        ({
            let (after, action) = qualification_next(model, event);
            &&& after.check == model.check
            &&& after.phase is Finished <==> action is Finish
            &&& forall|reply: QualificationReplyModel|
                #[trigger] after.expects(Ok(reply)) <==> action.answered_by(reply)
            &&& forall|error: EntityError|
                #[trigger] after.expects(Err(error)) <==> action.fails_with(error)
        }),
{
}

/// The outcome of a check, what a check is started with, and what the service is asked for
/// are known by all their fields.
pub proof fn law_a_check_is_known_by_its_fields(
    item: CheckQualificationsItem,
    check: QualificationCheck,
    request: CheckQualificationsRequest,
    text: String,
)
    ensures
        optional(Some(text)) == Some(text@),
        optional(None) is None,
        item@.name == item.name@,
        item@.qualified == item.qualified,
        item.output matches Some(output) ==> item@.output == Some(output@),
        item.output is None ==> item@.output is None,
        item.error matches Some(error) ==> item@.error == Some(error@),
        item.error is None ==> item@.error is None,
        check@.entity == check.entity@,
        check.system_id matches Some(system_id) ==> check@.system_id == Some(system_id@),
        check.system_id is None ==> check@.system_id is None,
        check@.change_set_id == check.change_set_id@,
        check@.edit_session_id == check.edit_session_id@,
        check@.workspace_id == check.workspace_id@,
        request@.system_id == request.system_id@,
        request@.entity == request.entity@,
{
}

/// What is announced and what is recorded are known by all their fields.
pub proof fn law_a_record_is_known_by_its_fields(
    start: QualificationStart,
    qualification: NewQualification,
)
    ensures
        start@.start == start.start@,
        start@.entity_id == start.entity_id@,
        start@.change_set_id == start.change_set_id@,
        start@.edit_session_id == start.edit_session_id@,
        start@.si_storable == start.si_storable@,
        qualification@.entity_id == qualification.entity_id@,
        qualification@.item == qualification.item@,
        qualification@.change_set_id == qualification.change_set_id@,
        qualification@.edit_session_id == qualification.edit_session_id@,
        qualification@.workspace_id == qualification.workspace_id@,
{
}

/// A task is known by what it checks, by the names it was told and by what it waits for.
pub proof fn law_a_task_is_known_by_what_it_holds(task: QualificationTask)
    ensures
        task@.check == task.check@,
        task@.valid_names.len() == task.valid_names@.len(),
        forall|i: int|
            0 <= i < task.valid_names@.len() ==> #[trigger] task@.valid_names[i]
                == task.valid_names@[i]@,
        match task.phase {
            QualificationPhase::Connecting => task@.phase is Connecting,
            QualificationPhase::Sending => task@.phase is Sending,
            QualificationPhase::Receiving => task@.phase is Receiving,
            QualificationPhase::Publishing => task@.phase is Publishing,
            QualificationPhase::Opening(item) => task@.phase == QualificationPhaseModel::Opening(
                item@,
            ),
            QualificationPhase::Recording => task@.phase is Recording,
            QualificationPhase::CommittingTransaction => task@.phase is CommittingTransaction,
            QualificationPhase::CommittingNats => task@.phase is CommittingNats,
            QualificationPhase::Finished => task@.phase is Finished,
        },
{
}

/// The messages of the service and the other answers are known whole.
pub proof fn law_what_a_task_is_told_is_known_whole(
    message: CheckQualificationsProtocol,
    error: EntityError,
)
    ensures
        match message {
            CheckQualificationsProtocol::ValidNames(names) => {
                &&& message@ matches MessageModel::ValidNames(models)
                &&& models.len() == names@.len()
                &&& forall|i: int| 0 <= i < names@.len() ==> #[trigger] models[i] == names@[i]@
            },
            CheckQualificationsProtocol::Start(name) => message@ == MessageModel::Start(name@),
            CheckQualificationsProtocol::Item(item) => message@ == MessageModel::Item(item@),
            CheckQualificationsProtocol::Finished => message@ is Finished,
        },
        QualificationReply::Done@ is Done,
        QualificationReply::Message(None)@ == QualificationReplyModel::Message(None),
        QualificationReply::Message(Some(message))@ == QualificationReplyModel::Message(
            Some(message@),
        ),
        qualification_event(Ok(QualificationReply::Done)) == carried_out(),
        qualification_event(Ok(QualificationReply::Message(None))) == received(None),
        qualification_event(Ok(QualificationReply::Message(Some(message)))) == received(
            Some(message@),
        ),
        qualification_event(Err(error)) == Err::<QualificationReplyModel, EntityError>(error),
{
}

/// What a task asks for is known whole.
pub proof fn law_what_a_task_asks_for_is_known_whole(action: QualificationAction)
    ensures
        match action {
            QualificationAction::Connect => action@ is Connect,
            QualificationAction::BeginTransaction => action@ is BeginTransaction,
            QualificationAction::Send(subject, request) => action@
                == QualificationActionModel::Send(subject@, request@),
            QualificationAction::Receive => action@ is Receive,
            QualificationAction::Publish(start) => action@ == QualificationActionModel::Publish(
                start@,
            ),
            QualificationAction::Record(qualification) => action@
                == QualificationActionModel::Record(qualification@),
            QualificationAction::CommitTransaction => action@ is CommitTransaction,
            QualificationAction::CommitNats => action@ is CommitNats,
            QualificationAction::Finish(result) => action@ == QualificationActionModel::Finish(
                result,
            ),
        },
{
}

/// What a task asks for is answered, and fails, as the service does that is asked.
pub proof fn law_a_task_is_answered_as_it_asked(
    action: QualificationActionModel,
    reply: QualificationReplyModel,
    error: EntityError,
)
    ensures
        action is Receive ==> {
            &&& action.answered_by(reply) <==> reply is Message
            &&& !action.fails_with(error)
        },
        action is Finish ==> !action.answered_by(reply) && !action.fails_with(error),
        !(action is Receive || action is Finish) ==> (action.answered_by(reply) <==> reply
            is Done),
        action is Connect ==> (action.fails_with(error) <==> (error is Deadpool || error
            is TokioPg)),
        action is Send ==> (action.fails_with(error) <==> error is Veritech),
        action is Publish || action is CommitNats ==> (action.fails_with(error) <==> error
            is NatsTxn),
        action is BeginTransaction || action is CommitTransaction ==> (action.fails_with(error)
            <==> error is TokioPg),
        action is Record ==> (action.fails_with(error) <==> error is Qualification),
{
}

/// The check of an entity is started with that entity, unaltered, and with its own
/// workspace.
pub proof fn law_a_check_is_started_with_the_entity(
    entity: EntityModel,
    system_id: Option<Seq<char>>,
    change_set_id: Seq<char>,
    edit_session_id: Seq<char>,
)
    ensures
        ({
            let check = entity.qualification_check(system_id, change_set_id, edit_session_id);
            &&& check.entity == entity
            &&& check.system_id == system_id
            &&& check.change_set_id == change_set_id
            &&& check.edit_session_id == edit_session_id
            &&& check.workspace_id == entity.si_storable.workspace_id
        }),
{
}

/// The service is asked about the entity, unaltered, in the system that was given, or in the
/// baseline where none was.
pub proof fn law_the_service_is_asked_about_the_entity(check: QualificationCheckModel)
    ensures
        check.request().entity == check.entity,
        check.system_id matches Some(system_id) ==> check.request().system_id == system_id,
        check.system_id is None ==> check.request().system_id == "baseline"@,
{
}

/// What is recorded is the outcome as the service gave it: its name, whether it qualified,
/// its output and its error. It is recorded for the entity that is checked, in the change
/// set, edit session and workspace of the check.
pub proof fn law_an_outcome_is_recorded_as_it_came(
    check: QualificationCheckModel,
    item: CheckQualificationsItemModel,
)
    ensures
        check.record(item).item == item,
        check.record(item).entity_id == check.entity.id,
        check.record(item).change_set_id == check.change_set_id,
        check.record(item).edit_session_id == check.edit_session_id,
        check.record(item).workspace_id == check.workspace_id,
{
}

/// Two outcomes are recorded alike only where they are the same outcome.
pub proof fn law_no_two_outcomes_are_recorded_alike(
    check: QualificationCheckModel,
    left: CheckQualificationsItemModel,
    right: CheckQualificationsItemModel,
)
    requires
        check.record(left) == check.record(right),
    ensures
        left == right,
{
}

/// A check that starts is announced by its name, for the entity that is checked, in the
/// change set and edit session of the check. It is announced as stored the way the entity
/// is, but for its type.
pub proof fn law_a_start_is_announced_by_its_name(check: QualificationCheckModel, name: Seq<char>)
    ensures
        ({
            let start = check.announcement(name);
            let stored = check.entity.si_storable;
            &&& start.start == name
            &&& start.entity_id == check.entity.id
            &&& start.change_set_id == check.change_set_id
            &&& start.edit_session_id == check.edit_session_id
            &&& start.si_storable.stored_type == "qualificationStart"@
            &&& start.si_storable.workspace_id == stored.workspace_id
            &&& start.si_storable.deleted == stored.deleted
            &&& start.si_storable.rest == stored.rest
        }),
{
}

/// A task begins with nothing but what it checks. It connects, sends the request, commits on
/// both sides and then waits for messages.
pub proof fn law_a_task_sends_its_request_first(check: QualificationCheckModel)
    ensures
        ({
            let (m0, a0) = qualification_start(check);
            let (m1, a1) = qualification_next(m0, carried_out());
            let (m2, a2) = qualification_next(m1, carried_out());
            let (m3, a3) = qualification_next(m2, carried_out());
            let (m4, a4) = qualification_next(m3, carried_out());
            &&& a0 is Connect
            &&& a1 == QualificationActionModel::Send(
                "checkQualifications"@,
                CheckQualificationsRequestModel {
                    system_id: match check.system_id {
                        Some(system_id) => system_id,
                        None => "baseline"@,
                    },
                    entity: check.entity,
                },
            )
            &&& a2 is CommitTransaction
            &&& a3 is CommitNats
            &&& a4 is Receive
            &&& m0.check == check
            &&& m0.valid_names.len() == 0
            &&& m4 == (QualificationModel {
                check: check,
                valid_names: m0.valid_names,
                phase: QualificationPhaseModel::Receiving,
            })
        }),
{
}

/// The start of a check that a message tells of is announced, and the announcement
/// committed. Then the task waits for the next message, and nothing else has changed.
pub proof fn law_a_start_is_announced_and_committed(model: QualificationModel, name: Seq<char>)
    requires
        model.phase is Receiving,
    ensures
        ({
            let (m1, a1) = qualification_next(model, received(Some(MessageModel::Start(name))));
            let (m2, a2) = qualification_next(m1, carried_out());
            let (m3, a3) = qualification_next(m2, carried_out());
            &&& a1 == QualificationActionModel::Publish(
                QualificationStartModel {
                    start: name,
                    entity_id: model.check.entity.id,
                    change_set_id: model.check.change_set_id,
                    edit_session_id: model.check.edit_session_id,
                    si_storable: SiStorableModel {
                        stored_type: "qualificationStart"@,
                        workspace_id: model.check.entity.si_storable.workspace_id,
                        deleted: model.check.entity.si_storable.deleted,
                        rest: model.check.entity.si_storable.rest,
                    },
                },
            )
            &&& a2 is CommitNats
            &&& a3 is Receive
            &&& m3 == model
        }),
{
}

/// The outcome that a message tells of is recorded as it came, in a transaction of its own
/// that is committed on both sides. Then the task waits for the next message, and nothing
/// else has changed.
pub proof fn law_an_outcome_is_recorded_and_committed(
    model: QualificationModel,
    item: CheckQualificationsItemModel,
)
    requires
        model.phase is Receiving,
    ensures
        ({
            let (m1, a1) = qualification_next(model, received(Some(MessageModel::Item(item))));
            let (m2, a2) = qualification_next(m1, carried_out());
            let (m3, a3) = qualification_next(m2, carried_out());
            let (m4, a4) = qualification_next(m3, carried_out());
            let (m5, a5) = qualification_next(m4, carried_out());
            &&& a1 is BeginTransaction
            &&& a2 == QualificationActionModel::Record(
                NewQualificationModel {
                    entity_id: model.check.entity.id,
                    item: CheckQualificationsItemModel {
                        name: item.name,
                        qualified: item.qualified,
                        output: item.output,
                        error: item.error,
                    },
                    change_set_id: model.check.change_set_id,
                    edit_session_id: model.check.edit_session_id,
                    workspace_id: model.check.workspace_id,
                },
            )
            &&& a3 is CommitTransaction
            &&& a4 is CommitNats
            &&& a5 is Receive
            &&& m5 == model
        }),
{
}

/// The names of the checks are kept as they were told last, and the next message is waited
/// for. The message that the checks are finished, and the end of the messages, end the task
/// well.
pub proof fn law_names_are_kept_and_the_end_is_the_end(
    model: QualificationModel,
    names: Seq<Seq<char>>,
)
    requires
        model.phase is Receiving,
    ensures
        ({
            let finished = (
                QualificationModel {
                    check: model.check,
                    valid_names: model.valid_names,
                    phase: QualificationPhaseModel::Finished,
                },
                QualificationActionModel::Finish(Ok(())),
            );
            &&& qualification_next(model, received(Some(MessageModel::ValidNames(names)))) == (
                QualificationModel {
                    check: model.check,
                    valid_names: names,
                    phase: QualificationPhaseModel::Receiving,
                },
                QualificationActionModel::Receive,
            )
            &&& qualification_next(model, received(Some(MessageModel::Finished))) == finished
            &&& qualification_next(model, received(None)) == finished
        }),
{
}

/// Whoever has an entity checked is told that the check is under way. The check is started
/// with the entity, unaltered, with what was given, and with the workspace of the entity.
pub proof fn law_checking_starts_with_the_entity(
    entity: Entity,
    system_id: Option<String>,
    change_set_id: &str,
    edit_session_id: &str,
    started: (QualificationCheck, EntityResult<bool>),
)
    requires
        call_ensures(
            Entity::check_qualifications_for_edit_session,
            (&entity, system_id, change_set_id, edit_session_id),
            started,
        ),
    ensures
        started.1 == Ok::<bool, EntityError>(true),
        started.0.entity@ == entity@,
        started.0.system_id is Some <==> system_id is Some,
        system_id matches Some(system) ==> started.0.system_id->0@ == system@,
        started.0.change_set_id@ == change_set_id@,
        started.0.edit_session_id@ == edit_session_id@,
        started.0.workspace_id@ == entity.si_storable.workspace_id@,
{
    assert(started.0@ == entity@.qualification_check(
        optional(system_id),
        change_set_id@,
        edit_session_id@,
    ));
}

/// An outcome that comes in while a task waits for messages is what the task then has
/// recorded: the same name, the same verdict, the same output and the same error, for the
/// entity that is checked and in the change set, edit session and workspace of the check.
pub proof fn law_taking_an_outcome_records_it(
    task: QualificationTask,
    item: CheckQualificationsItem,
    opened: (QualificationTask, QualificationAction),
    recorded: (QualificationTask, QualificationAction),
)
    requires
        task.phase is Receiving,
        call_ensures(
            QualificationTask::next,
            (
                task,
                Ok(
                    QualificationReply::Message(Some(CheckQualificationsProtocol::Item(item))),
                ),
            ),
            opened,
        ),
        call_ensures(
            QualificationTask::next,
            (opened.0, Ok(QualificationReply::Done)),
            recorded,
        ),
    ensures
        opened.1 is BeginTransaction,
        recorded.1 matches QualificationAction::Record(new) && {
            &&& new.item.name@ == item.name@
            &&& new.item.qualified == item.qualified
            &&& new.item.output is Some <==> item.output is Some
            &&& item.output matches Some(output) ==> new.item.output->0@ == output@
            &&& new.item.error is Some <==> item.error is Some
            &&& item.error matches Some(error) ==> new.item.error->0@ == error@
            &&& new.entity_id@ == task.check.entity.id@
            &&& new.change_set_id@ == task.check.change_set_id@
            &&& new.edit_session_id@ == task.check.edit_session_id@
            &&& new.workspace_id@ == task.check.workspace_id@
        },
        recorded.0.check@ == task.check@,
{
    law_an_outcome_is_recorded_and_committed(task@, item@);
    assert((opened.0@, opened.1@) == qualification_next(
        task@,
        received(Some(MessageModel::Item(item@))),
    ));
    assert((recorded.0@, recorded.1@) == qualification_next(opened.0@, carried_out()));
}

/// A check that starts while a task waits for messages is announced by its name, for the
/// entity that is checked.
pub proof fn law_taking_a_start_announces_it(
    task: QualificationTask,
    name: String,
    next: (QualificationTask, QualificationAction),
)
    requires
        task.phase is Receiving,
        call_ensures(
            QualificationTask::next,
            (
                task,
                Ok(
                    QualificationReply::Message(Some(CheckQualificationsProtocol::Start(name))),
                ),
            ),
            next,
        ),
    ensures
        next.1 matches QualificationAction::Publish(start) && {
            &&& start.start@ == name@
            &&& start.entity_id@ == task.check.entity.id@
            &&& start.change_set_id@ == task.check.change_set_id@
            &&& start.edit_session_id@ == task.check.edit_session_id@
            &&& start.si_storable.stored_type@ == "qualificationStart"@
            &&& start.si_storable.workspace_id@ == task.check.entity.si_storable.workspace_id@
            &&& start.si_storable.deleted == task.check.entity.si_storable.deleted
            &&& start.si_storable.rest == task.check.entity.si_storable.rest
        },
        next.0.check@ == task.check@,
{
    law_a_start_is_announced_and_committed(task@, name@);
    assert((next.0@, next.1@) == qualification_next(
        task@,
        received(Some(MessageModel::Start(name@))),
    ));
}

/// A task that was just begun and is connected sends the entity, unaltered, and the system
/// that was given, or the baseline.
pub proof fn law_beginning_sends_the_entity(
    check: QualificationCheck,
    begun: (QualificationTask, QualificationAction),
    sent: (QualificationTask, QualificationAction),
)
    requires
        call_ensures(Entity::task_check_qualifications_for_edit_session, (check,), begun),
        call_ensures(QualificationTask::next, (begun.0, Ok(QualificationReply::Done)), sent),
    ensures
        begun.1 is Connect,
        sent.1 matches QualificationAction::Send(subject, request) && {
            &&& subject@ == "checkQualifications"@
            &&& request.entity@ == check.entity@
            &&& check.system_id matches Some(system_id) ==> request.system_id@ == system_id@
            &&& check.system_id is None ==> request.system_id@ == "baseline"@
        },
        sent.0.check@ == check@,
{
    law_a_task_sends_its_request_first(check@);
    assert((begun.0@, begun.1@) == qualification_start(check@));
    assert((sent.0@, sent.1@) == qualification_next(begun.0@, carried_out()));
}

} // verus!
