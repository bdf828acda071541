//! The typed records the fetchers produce.

use vstd::prelude::*;

verus! {

/// Basic student information, one field per portal JSON key.
/// Every field is optional upstream; a missing key yields an empty string.
#[derive(Debug, PartialEq, Eq)]
pub struct BasicInfo {
    pub id: String,
    pub sid: String,
    pub name: String,
    pub email: String,
    pub year: String,
    pub department: String,
    pub major: String,
}

/// Mathematical model of a [`BasicInfo`] record.
pub struct BasicInfoView {
    pub id: Seq<char>,
    pub sid: Seq<char>,
    pub name: Seq<char>,
    pub email: Seq<char>,
    pub year: Seq<char>,
    pub department: Seq<char>,
    pub major: Seq<char>,
}

impl View for BasicInfo {
    type V = BasicInfoView;

    open spec fn view(&self) -> BasicInfoView {
        BasicInfoView {
            id: self.id@,
            sid: self.sid@,
            name: self.name@,
            email: self.email@,
            year: self.year@,
            department: self.department@,
            major: self.major@,
        }
    }
}

impl DeepView for BasicInfo {
    type V = BasicInfoView;

    open spec fn deep_view(&self) -> BasicInfoView {
        self.view()
    }
}

/// One semester's grade-point average. The upstream value of `gpa` is a
/// floating-point JSON number; it is held here as its JSON number token
/// (`"3.8"`), and `"0.0"` stands in when the field is absent.
#[derive(Debug, PartialEq, Eq)]
pub struct SemesterGPA {
    pub semester_full_name: String,
    pub semester_year: String,
    pub semester_number: String,
    pub gpa: String,
}

/// Mathematical model of a [`SemesterGPA`] record.
pub struct SemesterGPAView {
    pub semester_full_name: Seq<char>,
    pub semester_year: Seq<char>,
    pub semester_number: Seq<char>,
    pub gpa: Seq<char>,
}

impl View for SemesterGPA {
    type V = SemesterGPAView;

    open spec fn view(&self) -> SemesterGPAView {
        SemesterGPAView {
            semester_full_name: self.semester_full_name@,
            semester_year: self.semester_year@,
            semester_number: self.semester_number@,
            gpa: self.gpa@,
        }
    }
}

impl DeepView for SemesterGPA {
    type V = SemesterGPAView;

    open spec fn deep_view(&self) -> SemesterGPAView {
        self.view()
    }
}

} // verus!
