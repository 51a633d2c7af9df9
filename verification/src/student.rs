//! A student record that is put together in two stages.

use vstd::prelude::*;

verus! {

/// What a [`Student`] stands for: a name, and an id once one has been given.
pub struct StudentView {
    pub name: Seq<char>,
    pub id: Option<u32>,
}

/// A student. The fields are private: a student is made by [`Student::construct`] and
/// [`StudentConstruct::complete`].
pub struct Student {
    name: String,
    id: Option<u32>,
}

/// A student in the making: the name is fixed, the id may still be added.
pub struct StudentConstruct {
    pub student: Student,
}

impl View for Student {
    type V = StudentView;

    closed spec fn view(&self) -> StudentView {
        StudentView { name: self.name@, id: self.id }
    }
}

impl Student {
    /// Starts a student called `name`, without an id.
    pub fn construct(name: String) -> (draft: StudentConstruct)
        ensures
            draft.student@ == (StudentView { name: name@, id: None }),
    {
        let student = Student { name, id: None };
        StudentConstruct { student }
    }

    /// The student's name.
    pub fn name(&self) -> (name: &String)
        ensures
            name@ == self@.name,
    {
        &self.name
    }

    /// The student's id, if one was given.
    pub fn id(&self) -> (id: Option<u32>)
        ensures
            id == self@.id,
    {
        self.id
    }
}

impl StudentConstruct {
    /// Ends the making and hands the student out as it stands.
    pub fn complete(self) -> (student: Student)
        ensures
            student == self.student,
    {
        self.student
    }

    /// Gives the student the id `id`, in place of an earlier one if there was any, and
    /// hands the draft back for the next step.
    pub fn add_id(&mut self, id: u32) -> (draft: &mut Self)
        ensures
            draft.student@ == (StudentView { name: old(self).student@.name, id: Some(id) }),
            *final(self) == *final(draft),
    {
        self.student.id = Some(id);
        self
    }
}

} // verus!
