//! What the static validation of preset sources reports.

use vstd::prelude::*;
use vstd::string::*;

use crate::plan::optional_text;

verus! {

#[derive(Clone, Copy, Debug, PartialEq, Eq, Structural)]
pub enum PresetDiagnosticSeverity {
    Error,
    Warning,
}

/// One thing that validation found.
#[derive(Clone, Debug)]
pub struct PresetDiagnostic {
    pub severity: PresetDiagnosticSeverity,
    pub code: String,
    pub message: String,
    pub path: Option<String>,
}

/// One thing that validation found, by the values.
pub ghost struct DiagnosticView {
    pub severity: PresetDiagnosticSeverity,
    pub code: Seq<char>,
    pub message: Seq<char>,
    pub path: Option<Seq<char>>,
}

impl View for PresetDiagnostic {
    type V = DiagnosticView;

    open spec fn view(&self) -> DiagnosticView {
        DiagnosticView {
            severity: self.severity,
            code: self.code@,
            message: self.message@,
            path: optional_text(self.path),
        }
    }
}

/// The views of a list of diagnostics.
pub open spec fn diagnostic_views(list: Seq<PresetDiagnostic>) -> Seq<DiagnosticView> {
    list.map_values(|item: PresetDiagnostic| item@)
}

#[derive(Clone, Copy, Debug, PartialEq, Eq, Structural)]
pub enum PresetKind {
    App,
    Shell,
    Sys,
}

impl PresetKind {
    pub open spec fn text(self) -> Seq<char> {
        match self {
            PresetKind::App => "app"@,
            PresetKind::Shell => "shell"@,
            PresetKind::Sys => "sys"@,
        }
    }

    /// The name of the kind.
    pub fn as_str(self) -> (name: &'static str)
        ensures
            name@ == self.text(),
    {
        match self {
            PresetKind::App => "app",
            PresetKind::Shell => "shell",
            PresetKind::Sys => "sys",
        }
    }
}

/// The name under which a category of a kind is reported.
pub open spec fn target_text(kind: PresetKind, name: Seq<char>) -> Seq<char> {
    kind.text() + "/"@ + name
}

/// The name under which the category is reported.
pub fn preset_target(kind: PresetKind, name: &str) -> (target: String)
    ensures
        target@ == target_text(kind, name@),
{
    let mut target: String = kind.as_str().to_owned();
    target.append("/");
    target.append(name);
    target
}

/// What validation found of one category.
#[derive(Clone, Debug)]
pub struct PresetCategoryValidation {
    pub kind: PresetKind,
    pub name: String,
    pub diagnostics: Vec<PresetDiagnostic>,
}

/// What validation found.
#[derive(Clone, Debug)]
pub struct PresetValidation {
    pub valid: bool,
    pub diagnostics: Vec<PresetDiagnostic>,
    pub categories: Vec<PresetCategoryValidation>,
}

} // verus!
