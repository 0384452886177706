//! Plain records exchanged with the registry's clients, and the wording of
//! the enumerations as the database stores them.

use vstd::prelude::*;
use crate::text::opt_text;

verus! {

/// Civil status of a participant.
#[derive(Clone, Copy, Debug, PartialEq, Eq, Structural)]
pub enum MaritalStatus {
    Single,
    MarriedChurch,
    MarriedCivil,
    Union,
    Divorced,
    Widowed,
}

impl MaritalStatus {
    /// The wording under which the status is stored and sent.
    pub open spec fn spec_label(self) -> Seq<char> {
        match self {
            MaritalStatus::Single => "Single"@,
            MaritalStatus::MarriedChurch => "Married - Church"@,
            MaritalStatus::MarriedCivil => "Married - Civil"@,
            MaritalStatus::Union => "Union"@,
            MaritalStatus::Divorced => "Divorced"@,
            MaritalStatus::Widowed => "Widowed"@,
        }
    }

    /// The wording under which the value is stored and sent.
    pub fn label(&self) -> (text: &'static str)
        ensures
            text@ == self.spec_label(),
    {
        match self {
            MaritalStatus::Single => "Single",
            MaritalStatus::MarriedChurch => "Married - Church",
            MaritalStatus::MarriedCivil => "Married - Civil",
            MaritalStatus::Union => "Union",
            MaritalStatus::Divorced => "Divorced",
            MaritalStatus::Widowed => "Widowed",
        }
    }
}

/// Day on which a confirmation group meets.
#[derive(Clone, Copy, Debug, PartialEq, Eq, Structural)]
pub enum DayOfTheWeek {
    Sunday,
    Monday,
    Tuesday,
    Wednesday,
    Thursday,
    Friday,
    Saturday,
}

impl DayOfTheWeek {
    /// The wording under which the day is stored and sent.
    pub open spec fn spec_label(self) -> Seq<char> {
        match self {
            DayOfTheWeek::Sunday => "Sunday"@,
            DayOfTheWeek::Monday => "Monday"@,
            DayOfTheWeek::Tuesday => "Tuesday"@,
            DayOfTheWeek::Wednesday => "Wednesday"@,
            DayOfTheWeek::Thursday => "Thursday"@,
            DayOfTheWeek::Friday => "Friday"@,
            DayOfTheWeek::Saturday => "Saturday"@,
        }
    }

    /// The wording under which the value is stored and sent.
    pub fn label(&self) -> (text: &'static str)
        ensures
            text@ == self.spec_label(),
    {
        match self {
            DayOfTheWeek::Sunday => "Sunday",
            DayOfTheWeek::Monday => "Monday",
            DayOfTheWeek::Tuesday => "Tuesday",
            DayOfTheWeek::Wednesday => "Wednesday",
            DayOfTheWeek::Thursday => "Thursday",
            DayOfTheWeek::Friday => "Friday",
            DayOfTheWeek::Saturday => "Saturday",
        }
    }
}

/// Request to register a catechist.
#[derive(Clone, Debug, PartialEq, Eq)]
pub struct CreateCatechist {
    pub full_name: String,
    pub currently_active: bool,
}

/// Request to enrol a participant in a group.
#[derive(Clone, Copy, Debug, PartialEq, Eq, Structural)]
pub struct AddParticipantToGroup {
    pub confirmand_id: i32,
}

/// A sacrament a participant may have received.
#[derive(Clone, Debug, PartialEq, Eq)]
pub struct Sacrament {
    pub id: i16,
    pub name: String,
}

/// Request to record a sacrament for a participant.
#[derive(Clone, Copy, Debug, PartialEq, Eq, Structural)]
pub struct UpdateParticipantSacrament {
    pub sacrament_id: i16,
}

/// A day of the calendar.
#[derive(Clone, Copy, Debug, PartialEq, Eq, Structural)]
pub struct CalendarDate {
    pub year: i32,
    pub month: u32,
    pub day: u32,
}

/// Request to register a participant.
#[derive(Clone, Debug, PartialEq, Eq)]
pub struct CreateConfirmand {
    pub full_name: String,
    pub birth_date: CalendarDate,
    pub address: String,
    pub phone_number: String,
    pub email: String,
    pub marital_status: MaritalStatus,
    pub father_name: Option<String>,
    pub mother_name: Option<String>,
    pub baptism_church: Option<String>,
    pub communion_church: Option<String>,
}

/// A participant to register as contracts speak of it.
pub struct CreateConfirmandView {
    pub full_name: Seq<char>,
    pub birth_date: CalendarDate,
    pub address: Seq<char>,
    pub phone_number: Seq<char>,
    pub email: Seq<char>,
    pub marital_status: MaritalStatus,
    pub father_name: Option<Seq<char>>,
    pub mother_name: Option<Seq<char>>,
    pub baptism_church: Option<Seq<char>>,
    pub communion_church: Option<Seq<char>>,
}

impl View for CreateConfirmand {
    type V = CreateConfirmandView;

    open spec fn view(&self) -> CreateConfirmandView {
        CreateConfirmandView {
            full_name: self.full_name@,
            birth_date: self.birth_date,
            address: self.address@,
            phone_number: self.phone_number@,
            email: self.email@,
            marital_status: self.marital_status,
            father_name: opt_text(self.father_name),
            mother_name: opt_text(self.mother_name),
            baptism_church: opt_text(self.baptism_church),
            communion_church: opt_text(self.communion_church),
        }
    }
}

} // verus!
