use crate::error::{agrees, ApiError, Failure};
use crate::field::{
    change, email_field, field_failure, keep, keep_or, malformed_failure, optional, read_email,
    read_role, read_text, required, role_field, text_field, Field,
};
use crate::text::well_formed_email;
use crate::text::same_text;
use vstd::prelude::*;

verus! {

/// The closed set of roles a user can hold.
#[derive(Clone, Copy, Debug, PartialEq, Eq, Structural)]
pub enum Role {
    Admin,
    Director,
    Teacher,
    Parent,
    Student,
}

impl Role {
    /// The name under which the role is stored and sent: lower case.
    pub open spec fn name(self) -> Seq<char> {
        match self {
            Role::Admin => "admin"@,
            Role::Director => "director"@,
            Role::Teacher => "teacher"@,
            Role::Parent => "parent"@,
            Role::Student => "student"@,
        }
    }

    /// The name under which the role is shown in messages.
    pub open spec fn label(self) -> Seq<char> {
        match self {
            Role::Admin => "Admin"@,
            Role::Director => "Director"@,
            Role::Teacher => "Teacher"@,
            Role::Parent => "Parent"@,
            Role::Student => "Student"@,
        }
    }

    /// The role that a stored name stands for. No other text names a role.
    pub open spec fn of_name(text: Seq<char>) -> Option<Role> {
        if text == "admin"@ {
            Some(Role::Admin)
        } else if text == "director"@ {
            Some(Role::Director)
        } else if text == "teacher"@ {
            Some(Role::Teacher)
        } else if text == "parent"@ {
            Some(Role::Parent)
        } else if text == "student"@ {
            Some(Role::Student)
        } else {
            None
        }
    }

    /// Computes [`Role::name`].
    pub fn as_str(self) -> (name: &'static str)
        ensures
            name@ == self.name(),
    {
        match self {
            Role::Admin => "admin",
            Role::Director => "director",
            Role::Teacher => "teacher",
            Role::Parent => "parent",
            Role::Student => "student",
        }
    }

    /// Computes [`Role::label`].
    pub fn as_label(self) -> (label: &'static str)
        ensures
            label@ == self.label(),
    {
        match self {
            Role::Admin => "Admin",
            Role::Director => "Director",
            Role::Teacher => "Teacher",
            Role::Parent => "Parent",
            Role::Student => "Student",
        }
    }

    /// Computes [`Role::of_name`]: an unknown name is refused, never replaced
    /// by a default.
    pub fn from_name(text: &str) -> (role: Option<Role>)
        ensures
            role == Role::of_name(text@),
    {
        if same_text(text, "admin") {
            Some(Role::Admin)
        } else if same_text(text, "director") {
            Some(Role::Director)
        } else if same_text(text, "teacher") {
            Some(Role::Teacher)
        } else if same_text(text, "parent") {
            Some(Role::Parent)
        } else if same_text(text, "student") {
            Some(Role::Student)
        } else {
            None
        }
    }

    /// Each role is read back from its own name.
    pub proof fn lemma_name_round_trip(role: Role)
        ensures
            Role::of_name(role.name()) == Some(role),
    {
        reveal_strlit("admin");
        reveal_strlit("director");
        reveal_strlit("teacher");
        reveal_strlit("parent");
        reveal_strlit("student");
        assert("admin"@.len() == 5);
        assert("director"@.len() == 8);
        assert("teacher"@[0] == 't');
        assert("parent"@[0] == 'p');
        assert("student"@[0] == 's');
    }
}

/// A user as the store holds it. `created_at` counts microseconds from the
/// start of 1970, UTC.
#[derive(Debug, PartialEq, Eq)]
pub struct User {
    pub id: u128,
    pub email: String,
    pub hashed_password: String,
    pub role: Role,
    pub first_name: String,
    pub last_name: String,
    pub created_at: i64,
}

/// A user to create: every field present, the address well formed.
#[derive(Debug, PartialEq, Eq)]
pub struct NewUser {
    pub email: String,
    pub password: String,
    pub role: Role,
    pub first_name: String,
    pub last_name: String,
}

/// The changes to make to a user: a field that is `None` is left as it is.
#[derive(Debug, PartialEq, Eq)]
pub struct UpdateUser {
    pub email: Option<String>,
    pub password: Option<String>,
    pub role: Option<Role>,
    pub first_name: Option<String>,
    pub last_name: Option<String>,
}

/// The body of a request to create a user, as it came.
#[derive(Debug, PartialEq, Eq)]
pub struct NewUserForm {
    pub email: Option<String>,
    pub password: Option<String>,
    pub role: Option<String>,
    pub first_name: Option<String>,
    pub last_name: Option<String>,
}

/// The body of a request to update a user, as it came.
#[derive(Debug, PartialEq, Eq)]
pub struct UpdateUserForm {
    pub email: Option<String>,
    pub password: Option<String>,
    pub role: Option<String>,
    pub first_name: Option<String>,
    pub last_name: Option<String>,
}

impl NewUser {
    /// The user to create that the fields make, or the error for the first
    /// field, in the order of the parameters, that has no value.
    pub open spec fn checked(
        email: Field<String>,
        password: Field<String>,
        role: Field<Role>,
        first_name: Field<String>,
        last_name: Field<String>,
    ) -> Result<NewUser, Failure> {
        if !(email is Given) {
            Err(field_failure(email, "email"@))
        } else if !(password is Given) {
            Err(field_failure(password, "password"@))
        } else if !(role is Given) {
            Err(field_failure(role, "role"@))
        } else if !(first_name is Given) {
            Err(field_failure(first_name, "first_name"@))
        } else if !(last_name is Given) {
            Err(field_failure(last_name, "last_name"@))
        } else {
            Ok(
                NewUser {
                    email: email->Given_0,
                    password: password->Given_0,
                    role: role->Given_0,
                    first_name: first_name->Given_0,
                    last_name: last_name->Given_0,
                },
            )
        }
    }

    /// What [`NewUser::validate`] makes of a form.
    pub open spec fn of_form(form: NewUserForm) -> Result<NewUser, Failure> {
        NewUser::checked(
            email_field(form.email),
            text_field(form.password),
            role_field(form.role),
            text_field(form.first_name),
            text_field(form.last_name),
        )
    }

    /// Computes [`NewUser::checked`].
    pub fn from_fields(
        email: Field<String>,
        password: Field<String>,
        role: Field<Role>,
        first_name: Field<String>,
        last_name: Field<String>,
    ) -> (r: Result<NewUser, ApiError>)
        ensures
            agrees(NewUser::checked(email, password, role, first_name, last_name), r),
    {
        let email = required(email, "email")?;
        let password = required(password, "password")?;
        let role = required(role, "role")?;
        let first_name = required(first_name, "first_name")?;
        let last_name = required(last_name, "last_name")?;
        Ok(NewUser { email, password, role, first_name, last_name })
    }

    /// Validates the body of a request to create a user: every field is
    /// required, the address must be well formed and the role must be one of
    /// the five.
    pub fn validate(form: NewUserForm) -> (r: Result<NewUser, ApiError>)
        ensures
            agrees(NewUser::of_form(form), r),
            r matches Ok(user) ==> well_formed_email(user.email@),
    {
        NewUser::from_fields(
            read_email(form.email),
            read_text(form.password),
            read_role(form.role),
            read_text(form.first_name),
            read_text(form.last_name),
        )
    }
}

impl UpdateUser {
    /// The changes that the fields make, or the error for the first field, in
    /// the order of the parameters, that is malformed.
    pub open spec fn checked(
        email: Field<String>,
        password: Field<String>,
        role: Field<Role>,
        first_name: Field<String>,
        last_name: Field<String>,
    ) -> Result<UpdateUser, Failure> {
        if email is Malformed {
            Err(malformed_failure("email"@))
        } else if password is Malformed {
            Err(malformed_failure("password"@))
        } else if role is Malformed {
            Err(malformed_failure("role"@))
        } else if first_name is Malformed {
            Err(malformed_failure("first_name"@))
        } else if last_name is Malformed {
            Err(malformed_failure("last_name"@))
        } else {
            Ok(
                UpdateUser {
                    email: change(email),
                    password: change(password),
                    role: change(role),
                    first_name: change(first_name),
                    last_name: change(last_name),
                },
            )
        }
    }

    /// What [`UpdateUser::validate`] makes of a form.
    pub open spec fn of_form(form: UpdateUserForm) -> Result<UpdateUser, Failure> {
        UpdateUser::checked(
            email_field(form.email),
            text_field(form.password),
            role_field(form.role),
            text_field(form.first_name),
            text_field(form.last_name),
        )
    }

    /// Computes [`UpdateUser::checked`].
    pub fn from_fields(
        email: Field<String>,
        password: Field<String>,
        role: Field<Role>,
        first_name: Field<String>,
        last_name: Field<String>,
    ) -> (r: Result<UpdateUser, ApiError>)
        ensures
            agrees(UpdateUser::checked(email, password, role, first_name, last_name), r),
    {
        let email = optional(email, "email")?;
        let password = optional(password, "password")?;
        let role = optional(role, "role")?;
        let first_name = optional(first_name, "first_name")?;
        let last_name = optional(last_name, "last_name")?;
        Ok(UpdateUser { email, password, role, first_name, last_name })
    }

    /// Validates the body of a request to update a user: no field is required,
    /// but an address that is given must be well formed and a role that is
    /// given must be one of the five.
    pub fn validate(form: UpdateUserForm) -> (r: Result<UpdateUser, ApiError>)
        ensures
            agrees(UpdateUser::of_form(form), r),
            r matches Ok(UpdateUser { email: Some(address), .. }) ==> well_formed_email(address@),
    {
        UpdateUser::from_fields(
            read_email(form.email),
            read_text(form.password),
            read_role(form.role),
            read_text(form.first_name),
            read_text(form.last_name),
        )
    }

    /// The user after the changes: each field that the changes name takes its
    /// new value, every other field keeps the one it had. The password is not
    /// among the fields: the store hashes a new one.
    pub open spec fn merged(self, current: User) -> User {
        User {
            id: current.id,
            email: keep(self.email, current.email),
            hashed_password: current.hashed_password,
            role: keep(self.role, current.role),
            first_name: keep(self.first_name, current.first_name),
            last_name: keep(self.last_name, current.last_name),
            created_at: current.created_at,
        }
    }

    /// Computes [`UpdateUser::merged`], and hands out the new password, if
    /// there is one, for the store to hash.
    pub fn apply(self, current: User) -> (r: (User, Option<String>))
        ensures
            r.0 == self.merged(current),
            r.1 == self.password,
    {
        let merged = User {
            id: current.id,
            email: keep_or(self.email, current.email),
            hashed_password: current.hashed_password,
            role: keep_or(self.role, current.role),
            first_name: keep_or(self.first_name, current.first_name),
            last_name: keep_or(self.last_name, current.last_name),
            created_at: current.created_at,
        };
        (merged, self.password)
    }
}

} // verus!
