use vstd::prelude::*;

use crate::text::{clone_opt_string, opt_view};
use crate::time::Timestamp;

verus! {

/// A short form / diminutive / abbreviation that maps to one employee.
#[derive(Debug)]
pub struct EmployeeAlias {
    pub id: Option<i64>,
    pub employee_id: i64,
    pub alias: String,
    pub created_by_user_id: Option<i64>,
    pub created_at: Timestamp,
}

/// Workload of one employee, shown next to assignee suggestions.
#[derive(Debug, Clone, Copy, PartialEq, Eq, Structural)]
pub struct WorkloadSnapshot {
    pub employee_id: i64,
    pub active_task_count: u32,
    pub overdue_task_count: u32,
}

/// Where an employee record originated.
#[derive(Debug, Clone, Copy, PartialEq, Eq, Structural)]
pub enum EmployeeSource {
    GoogleSheets,
    BotRegistered,
}

impl EmployeeSource {
    pub open spec fn spec_as_str(self) -> Seq<char> {
        match self {
            EmployeeSource::GoogleSheets => "google_sheets"@,
            EmployeeSource::BotRegistered => "bot_registered"@,
        }
    }

    pub fn as_str(self) -> (r: &'static str)
        ensures
            r@ == self.spec_as_str(),
    {
        match self {
            EmployeeSource::GoogleSheets => "google_sheets",
            EmployeeSource::BotRegistered => "bot_registered",
        }
    }
}

#[derive(Debug)]
pub struct Employee {
    pub id: Option<i64>,
    pub full_name: String,
    pub telegram_username: Option<String>,
    pub email: Option<String>,
    pub phone: Option<String>,
    pub department: Option<String>,
    pub is_active: bool,
    pub source: EmployeeSource,
    pub synced_at: Option<Timestamp>,
    pub created_at: Timestamp,
    pub updated_at: Timestamp,
}

/// Mathematical value of an [`Employee`].
pub struct EmployeeView {
    pub id: Option<i64>,
    pub full_name: Seq<char>,
    pub telegram_username: Option<Seq<char>>,
    pub email: Option<Seq<char>>,
    pub phone: Option<Seq<char>>,
    pub department: Option<Seq<char>>,
    pub is_active: bool,
    pub source: EmployeeSource,
    pub synced_at: Option<Timestamp>,
    pub created_at: Timestamp,
    pub updated_at: Timestamp,
}

impl View for Employee {
    type V = EmployeeView;

    open spec fn view(&self) -> EmployeeView {
        EmployeeView {
            id: self.id,
            full_name: self.full_name@,
            telegram_username: opt_view(self.telegram_username),
            email: opt_view(self.email),
            phone: opt_view(self.phone),
            department: opt_view(self.department),
            is_active: self.is_active,
            source: self.source,
            synced_at: self.synced_at,
            created_at: self.created_at,
            updated_at: self.updated_at,
        }
    }
}

impl Employee {
    pub fn duplicate(&self) -> (r: Employee)
        ensures
            r@ == self@,
    {
        Employee {
            id: self.id,
            full_name: self.full_name.clone(),
            telegram_username: clone_opt_string(&self.telegram_username),
            email: clone_opt_string(&self.email),
            phone: clone_opt_string(&self.phone),
            department: clone_opt_string(&self.department),
            is_active: self.is_active,
            source: self.source,
            synced_at: self.synced_at,
            created_at: self.created_at,
            updated_at: self.updated_at,
        }
    }
}

#[derive(Debug, Clone, Copy, PartialEq, Eq, Structural)]
pub enum MatchStrategy {
    ExactUsername,
    ExactFullName,
    ExactFirstName,
    /// The query matched a registered alias of exactly this employee.
    ExactAlias,
    /// The query is a proper prefix of the employee's first name; always
    /// needs explicit confirmation.
    PrefixFirstName,
    SuggestedFirstName,
    SuggestedFullName,
}

#[derive(Debug)]
pub struct EmployeeMatch {
    pub employee: Employee,
    pub confidence: u8,
    pub strategy: MatchStrategy,
}

#[derive(Debug)]
pub enum EmployeeMatchOutcome {
    Unique(EmployeeMatch),
    Ambiguous(Vec<EmployeeMatch>),
    NotFound,
}

impl EmployeeMatch {
    pub fn duplicate(&self) -> (r: EmployeeMatch)
        ensures
            r.employee@ == self.employee@,
            r.confidence == self.confidence,
            r.strategy == self.strategy,
    {
        EmployeeMatch { employee: self.employee.duplicate(), confidence: self.confidence, strategy: self.strategy }
    }
}

} // verus!
