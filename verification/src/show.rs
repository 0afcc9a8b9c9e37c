use vstd::prelude::*;
use crate::error::{Error, ErrorKind, ErrorView};
use crate::helpers::{
    active_key, active_label_key, initialized_key, initialized_label_key, sealed_key,
    sealed_label_key,
};
use crate::member::{Member, MemberView, StatusCondition, StatusConditionView};
use crate::text::text_eq;
use crate::version::naming_error;

verus! {

/// The colour in which a cell of the status table is shown.
#[derive(Clone, Copy, Debug, PartialEq, Eq, Structural)]
pub enum Color {
    Green,
    Red,
    Yellow,
    White,
}

/// One coloured cell of the status table.
#[derive(Clone, Debug, PartialEq, Eq)]
pub struct Cell {
    pub text: String,
    pub color: Color,
}

/// The mathematical model of a [`Cell`].
pub struct CellView {
    pub text: Seq<char>,
    pub color: Color,
}

impl View for Cell {
    type V = CellView;

    open spec fn view(&self) -> CellView {
        CellView { text: self.text@, color: self.color }
    }
}

/// The row of the status table for one member.
#[derive(Clone, Debug, PartialEq, Eq)]
pub struct Row {
    pub name: String,
    pub status: String,
    pub image: String,
    pub initialized: Cell,
    pub sealed: Cell,
    pub active: Cell,
    pub ready: Cell,
}

/// The mathematical model of a [`Row`].
pub struct RowView {
    pub name: Seq<char>,
    pub status: Seq<char>,
    pub image: Seq<char>,
    pub initialized: CellView,
    pub sealed: CellView,
    pub active: CellView,
    pub ready: CellView,
}

impl View for Row {
    type V = RowView;

    open spec fn view(&self) -> RowView {
        RowView {
            name: self.name@,
            status: self.status@,
            image: self.image@,
            initialized: self.initialized@,
            sealed: self.sealed@,
            active: self.active@,
            ready: self.ready@,
        }
    }
}

impl DeepView for Row {
    type V = RowView;

    open spec fn deep_view(&self) -> RowView {
        self@
    }
}

/// The value of a label of a member, or `unknown` where the member does not have it.
pub open spec fn label_text(member: MemberView, key: Seq<char>) -> Seq<char> {
    match member.labels {
        Some(labels) => if labels.contains_key(key) {
            labels[key]
        } else {
            "unknown"@
        },
        None => "unknown"@,
    }
}

/// The cell for a text that is expected to be `true` or `false`: in the first colour for
/// `true`, in the second for `false`, and in yellow for anything else.
pub open spec fn flag_cell(text: Seq<char>, when_true: Color, when_false: Color) -> CellView {
    CellView {
        text,
        color: if text == "true"@ {
            when_true
        } else if text == "false"@ {
            when_false
        } else {
            Color::Yellow
        },
    }
}

/// The position of the first condition of type `Ready` at or after `from`, or the number of
/// conditions where there is none.
pub open spec fn first_ready(conditions: Seq<StatusConditionView>, from: int) -> int
    decreases conditions.len() - from,
{
    if from < 0 || from >= conditions.len() {
        conditions.len() as int
    } else if conditions[from].type_ == "Ready"@ {
        from
    } else {
        first_ready(conditions, from + 1)
    }
}

/// Whether the conditions say that the member is ready: what the first condition of type
/// `Ready` says, and `unknown` where there is none or it says neither `True` nor `False`.
pub open spec fn ready_text(conditions: Seq<StatusConditionView>) -> Seq<char> {
    let at = first_ready(conditions, 0);
    if at >= conditions.len() {
        "unknown"@
    } else if conditions[at].status == "True"@ {
        "true"@
    } else if conditions[at].status == "False"@ {
        "false"@
    } else {
        "unknown"@
    }
}

/// The row of the status table for a member of a cluster of the given flavor: its name, its
/// phase, the image of its first container, what its labels say of it, and whether it is
/// ready. A member that lacks one of the first three, or has no conditions, has no row.
pub open spec fn row_of(flavor: Seq<char>, member: MemberView) -> Result<RowView, ErrorView> {
    if member.name is None {
        Err(naming_error("pod does not have a name"@))
    } else if member.status is None {
        Err(naming_error("pod does not have a status"@))
    } else if member.status->0.phase is None {
        Err(naming_error("pod does not have a phase"@))
    } else if member.spec is None {
        Err(naming_error("pod does not have a spec"@))
    } else if member.spec->0.containers.len() == 0 {
        Err(naming_error("pod does not have a container"@))
    } else if member.spec->0.containers[0].image is None {
        Err(naming_error("container does not have an image"@))
    } else if member.status->0.conditions is None {
        Err(naming_error("pod does not have status conditions"@))
    } else {
        Ok(
            RowView {
                name: member.name->0,
                status: member.status->0.phase->0,
                image: member.spec->0.containers[0].image->0,
                initialized: flag_cell(
                    label_text(member, initialized_key(flavor)),
                    Color::Green,
                    Color::Red,
                ),
                sealed: flag_cell(label_text(member, sealed_key(flavor)), Color::Red, Color::Green),
                active: flag_cell(
                    label_text(member, active_key(flavor)),
                    Color::Green,
                    Color::White,
                ),
                ready: flag_cell(
                    ready_text(member.status->0.conditions->0),
                    Color::Green,
                    Color::White,
                ),
            },
        )
    }
}

/// The titles of the columns of the status table.
pub fn titles() -> (titles: Vec<String>)
    ensures
        titles.deep_view() == seq![
            "NAME"@,
            "STATUS"@,
            "IMAGE"@,
            "INITIALIZED"@,
            "SEALED"@,
            "ACTIVE"@,
            "READY"@,
        ],
{
    let mut titles: Vec<String> = Vec::new();
    titles.push(String::from_str("NAME"));
    titles.push(String::from_str("STATUS"));
    titles.push(String::from_str("IMAGE"));
    titles.push(String::from_str("INITIALIZED"));
    titles.push(String::from_str("SEALED"));
    titles.push(String::from_str("ACTIVE"));
    titles.push(String::from_str("READY"));
    assert(titles.deep_view() =~= seq![
        "NAME"@,
        "STATUS"@,
        "IMAGE"@,
        "INITIALIZED"@,
        "SEALED"@,
        "ACTIVE"@,
        "READY"@,
    ]);
    titles
}

/// The cell for a text that is expected to be `true` or `false`.
fn cell(text: String, when_true: Color, when_false: Color) -> (cell: Cell)
    ensures
        cell@ == flag_cell(text@, when_true, when_false),
{
    let color = if text_eq(text.as_str(), "true") {
        when_true
    } else if text_eq(text.as_str(), "false") {
        when_false
    } else {
        Color::Yellow
    };
    Cell { text, color }
}

/// The value of a label of a member, or `unknown`.
fn label_or_unknown(member: &Member, key: &str) -> (text: String)
    ensures
        text@ == label_text(member@, key@),
{
    match member.label(key) {
        Some(value) => value.clone(),
        None => String::from_str("unknown"),
    }
}

/// Whether the conditions say that the member is ready.
fn readiness(conditions: &Vec<StatusCondition>) -> (text: String)
    ensures
        text@ == ready_text(conditions.deep_view()),
{
    let mut i: usize = 0;
    while i < conditions.len()
        invariant
            i <= conditions.len(),
            first_ready(conditions.deep_view(), 0) == first_ready(conditions.deep_view(), i as int),
        decreases conditions.len() - i,
    {
        assert(conditions.deep_view()[i as int] == conditions[i as int]@);
        if text_eq(conditions[i].type_.as_str(), "Ready") {
            if text_eq(conditions[i].status.as_str(), "True") {
                return String::from_str("true");
            }
            if text_eq(conditions[i].status.as_str(), "False") {
                return String::from_str("false");
            }
            return String::from_str("unknown");
        }
        i = i + 1;
    }
    String::from_str("unknown")
}

/// The row of the status table for one member of a cluster of the given flavor.
pub fn table_row(flavor: &str, member: &Member) -> (row: Result<Row, Error>)
    ensures
        match row {
            Ok(value) => row_of(flavor@, member@) == Ok::<RowView, ErrorView>(value@),
            Err(error) => row_of(flavor@, member@) == Err::<RowView, ErrorView>(error@),
        },
{
    let name = match &member.name {
        Some(name) => name.clone(),
        None => {
            return Err(Error::new(ErrorKind::Naming, "pod does not have a name"));
        },
    };
    let status = match &member.status {
        Some(status) => status,
        None => {
            return Err(Error::new(ErrorKind::Naming, "pod does not have a status"));
        },
    };
    let phase = match &status.phase {
        Some(phase) => phase.clone(),
        None => {
            return Err(Error::new(ErrorKind::Naming, "pod does not have a phase"));
        },
    };
    let spec = match &member.spec {
        Some(spec) => spec,
        None => {
            return Err(Error::new(ErrorKind::Naming, "pod does not have a spec"));
        },
    };
    if spec.containers.len() == 0 {
        return Err(Error::new(ErrorKind::Naming, "pod does not have a container"));
    }
    assert(spec.containers.deep_view()[0] == spec.containers[0]@);
    let image = match &spec.containers[0].image {
        Some(image) => image.clone(),
        None => {
            return Err(Error::new(ErrorKind::Naming, "container does not have an image"));
        },
    };
    let conditions = match &status.conditions {
        Some(conditions) => conditions,
        None => {
            return Err(Error::new(ErrorKind::Naming, "pod does not have status conditions"));
        },
    };
    let initialized_key = initialized_label_key(flavor);
    let sealed_key = sealed_label_key(flavor);
    let active_key = active_label_key(flavor);
    Ok(
        Row {
            name,
            status: phase,
            image,
            initialized: cell(
                label_or_unknown(member, initialized_key.as_str()),
                Color::Green,
                Color::Red,
            ),
            sealed: cell(label_or_unknown(member, sealed_key.as_str()), Color::Red, Color::Green),
            active: cell(
                label_or_unknown(member, active_key.as_str()),
                Color::Green,
                Color::White,
            ),
            ready: cell(readiness(conditions), Color::Green, Color::White),
        },
    )
}

/// The rows of the status table for the given members, in their order. As many rows as
/// members, or the failure of the first member that has no row.
pub open spec fn rows_of(flavor: Seq<char>, members: Seq<MemberView>, count: nat) -> Result<
    Seq<RowView>,
    ErrorView,
>
    decreases count,
{
    if count == 0 || count > members.len() {
        Ok(Seq::empty())
    } else {
        match rows_of(flavor, members, (count - 1) as nat) {
            Err(error) => Err(error),
            Ok(rows) => match row_of(flavor, members[count - 1]) {
                Err(error) => Err(error),
                Ok(row) => Ok(rows.push(row)),
            },
        }
    }
}

/// The rows of the status table for the members of a cluster of the given flavor.
pub fn construct_table(flavor: &str, pods: &Vec<Member>) -> (table: Result<Vec<Row>, Error>)
    ensures
        match table {
            Ok(rows) => rows_of(flavor@, pods.deep_view(), pods.len() as nat) == Ok::<
                Seq<RowView>,
                ErrorView,
            >(rows.deep_view()),
            Err(error) => rows_of(flavor@, pods.deep_view(), pods.len() as nat) == Err::<
                Seq<RowView>,
                ErrorView,
            >(error@),
        },
{
    let mut rows: Vec<Row> = Vec::new();
    let mut i: usize = 0;
    assert(rows.deep_view() =~= Seq::<RowView>::empty());
    while i < pods.len()
        invariant
            i <= pods.len(),
            rows_of(flavor@, pods.deep_view(), i as nat) == Ok::<Seq<RowView>, ErrorView>(
                rows.deep_view(),
            ),
        decreases pods.len() - i,
    {
        assert(pods.deep_view()[i as int] == pods[i as int]@);
        let ghost before = rows.deep_view();
        match table_row(flavor, &pods[i]) {
            Ok(row) => {
                rows.push(row);
                assert(rows.deep_view() =~= before.push(row@));
            },
            Err(error) => {
                proof {
                    lemma_rows_fail(flavor@, pods.deep_view(), (i + 1) as nat, pods.len() as nat);
                }
                return Err(error);
            },
        }
        i = i + 1;
    }
    Ok(rows)
}

/// Once the rows of the first members fail, so do the rows of more of them, in the same
/// way.
proof fn lemma_rows_fail(flavor: Seq<char>, members: Seq<MemberView>, failed: nat, count: nat)
    requires
        failed <= count <= members.len(),
        rows_of(flavor, members, failed) is Err,
    ensures
        rows_of(flavor, members, count) == rows_of(flavor, members, failed),
    decreases count,
{
    if count > failed {
        lemma_rows_fail(flavor, members, failed, (count - 1) as nat);
    }
}

} // verus!
