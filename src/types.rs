use vstd::prelude::*;

verus! {

/// The type of a value or of an annotation.
#[derive(Debug, Clone, Copy, PartialEq, Eq, Structural)]
pub enum PythonType {
    Int,
    Str,
    Bool,
    Float,
    Custom,
}

} // verus!

verus! {

/// A recognised statement.
#[derive(Debug, PartialEq)]
pub enum Setting {
    /// `x = 2`
    Assignment(String, PythonType),
    /// `x: int`
    VariableDeclaration(String, PythonType),
    /// `x: int = 2`
    VariableDefinition(String, PythonType, PythonType),
    /// `def pow(x: int, y: int = 2) -> int:`
    FunctionDefinition(String, Vec<Setting>, Option<PythonType>),
}

/// A statement with its texts as character sequences.
pub enum SettingModel {
    Assignment(Seq<char>, PythonType),
    VariableDeclaration(Seq<char>, PythonType),
    VariableDefinition(Seq<char>, PythonType, PythonType),
    FunctionDefinition(Seq<char>, Seq<SettingModel>, Option<PythonType>),
}

/// The model of a statement that stands as a parameter: parameters are
/// never function definitions, whose own parameters are not looked at here.
pub open spec fn leaf_view(s: Setting) -> SettingModel {
    match s {
        Setting::Assignment(n, v) => SettingModel::Assignment(n@, v),
        Setting::VariableDeclaration(n, a) => SettingModel::VariableDeclaration(n@, a),
        Setting::VariableDefinition(n, a, v) => SettingModel::VariableDefinition(n@, a, v),
        Setting::FunctionDefinition(n, _, r) => SettingModel::FunctionDefinition(
            n@,
            Seq::empty(),
            r,
        ),
    }
}

impl View for Setting {
    type V = SettingModel;

    open spec fn view(&self) -> SettingModel {
        match self {
            Setting::FunctionDefinition(n, ps, r) => SettingModel::FunctionDefinition(
                n@,
                ps@.map_values(|p: Setting| leaf_view(p)),
                *r,
            ),
            _ => leaf_view(*self),
        }
    }
}

pub open spec fn view_opt(o: Option<Setting>) -> Option<SettingModel> {
    match o {
        Some(s) => Some(s@),
        None => None,
    }
}

} // verus!

verus! {

/// The kind of a diagnostic.
#[derive(Debug, Clone, Copy, PartialEq, Eq, Structural)]
pub enum ReportType {
    /// A value that does not fit the variable; not produced yet.
    WrongAssignment,
    /// An annotation that disagrees with the type of the value assigned.
    DeclarationAssignmentDisparity,
}

/// One diagnostic: its kind, the line's text, its number (from 1) and the
/// symbol concerned.
#[derive(Debug)]
pub struct Report {
    pub t: ReportType,
    pub line: String,
    pub i: usize,
    pub symbol: String,
}

pub struct ReportModel {
    pub t: ReportType,
    pub line: Seq<char>,
    pub i: nat,
    pub symbol: Seq<char>,
}

impl View for Report {
    type V = ReportModel;

    open spec fn view(&self) -> ReportModel {
        ReportModel { t: self.t, line: self.line@, i: self.i as nat, symbol: self.symbol@ }
    }
}

} // verus!
