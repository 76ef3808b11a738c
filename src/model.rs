use vstd::prelude::*;

verus! {

/// Name and role of a candidate.
pub struct PersonalInformation {
    pub first_name: String,
    pub last_name: String,
    pub job_title: String,
}

/// A degree: the school and the grade, kept in tenths (`25` is a grade of 2.5).
pub struct EducationExperience {
    pub school: String,
    pub grade_tenths: u32,
}

/// A job: the company.
pub struct WorkExperience {
    pub company: String,
}

/// What a period of the candidate's history was.
pub enum ExperienceKind {
    Education(EducationExperience),
    Work(WorkExperience),
}

/// One period of the candidate's history, with its years as written.
pub struct Experience {
    pub from_year: String,
    pub to_year: String,
    pub kind: ExperienceKind,
}

/// A named skill with its rating (nominally 0 to 10).
pub struct Skill {
    pub name: String,
    pub rating: u8,
}

/// Everything shown of one candidate.
pub struct Candidate {
    pub personal_info: PersonalInformation,
    pub experience: Vec<Experience>,
    pub skills: Vec<Skill>,
    pub notes: Vec<String>,
}

} // verus!
