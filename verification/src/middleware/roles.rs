use vstd::prelude::*;

use std::rc::Rc;

use crate::http::{is_text, text_reply, Reply, Status};

verus! {

/// The role a request acts under.
#[derive(Clone, Copy, Debug, PartialEq, Eq, Structural)]
pub enum Role {
    Guest,
    Admin,
    User,
}

/// Whether a request under `user_role` may enter a scope that demands `required`.
pub open spec fn spec_access_granted(user_role: Role, required: Role) -> bool {
    match user_role {
        Role::Guest => true,
        Role::User => required == Role::User || required == Role::Admin,
        Role::Admin => required == Role::Admin,
    }
}

/// Decides whether a request under `user_role` may enter a scope guarded by `required`.
pub fn access_granted(user_role: Role, required: Role) -> (granted: bool)
    ensures
        granted == spec_access_granted(user_role, required),
{
    match user_role {
        Role::Guest => true,
        Role::User => match required {
            Role::User | Role::Admin => true,
            Role::Guest => false,
        },
        Role::Admin => match required {
            Role::Admin => true,
            _ => false,
        },
    }
}

/// The role a request acts under, a guest where it carries none.
pub open spec fn acting_role(role: Option<Role>) -> Role {
    role.unwrap_or(Role::Guest)
}

/// Whether a request that carries `role` acts as an administrator.
pub fn acts_as_admin(role: Option<Role>) -> (admin: bool)
    ensures
        admin == (acting_role(role) == Role::Admin),
{
    role.unwrap_or(Role::Guest) == Role::Admin
}

/// A guard for a scope of routes that demands a role.
pub struct RequireRole {
    required_role: Role,
}

impl RequireRole {
    pub closed spec fn required(&self) -> Role {
        self.required_role
    }

    pub fn new(role: Role) -> (guard: Self)
        ensures
            guard.required() == role,
    {
        Self { required_role: role }
    }

    /// The role this guard demands.
    pub fn required_role(&self) -> (role: Role)
        ensures
            role == self.required(),
    {
        self.required_role
    }

    /// Puts the guard in front of `service`.
    pub fn new_transform<S>(&self, service: S) -> (guarded: RequireRoleMiddleware<S>)
        ensures
            guarded.required() == self.required(),
            *guarded.inner() == service,
    {
        RequireRoleMiddleware { service: Rc::new(service), required_role: self.required_role }
    }
}

/// A service behind a role guard.
pub struct RequireRoleMiddleware<S> {
    service: Rc<S>,
    required_role: Role,
}

/// The answer to a request the guard turns away.
pub open spec fn is_access_denied<T>(r: Reply<T>) -> bool {
    is_text(r, Status::Forbidden, "Доступ запрещен"@)
}

impl<S> RequireRoleMiddleware<S> {
    pub closed spec fn required(&self) -> Role {
        self.required_role
    }

    pub closed spec fn inner(&self) -> Rc<S> {
        self.service
    }

    /// The guarded service.
    pub fn service(&self) -> (service: &Rc<S>)
        ensures
            *service == self.inner(),
    {
        &self.service
    }

    /// Decides a request that acts under `user_role` (a guest where the request
    /// carries none): `None` passes it on to the guarded service, `Some` answers
    /// it with 403.
    pub fn call<T>(&self, user_role: Option<Role>) -> (answer: Option<Reply<T>>)
        ensures
            match answer {
                None => spec_access_granted(user_role.unwrap_or(Role::Guest), self.required()),
                Some(r) => !spec_access_granted(user_role.unwrap_or(Role::Guest), self.required())
                    && is_access_denied(r),
            },
    {
        let role = user_role.unwrap_or(Role::Guest);
        if access_granted(role, self.required_role) {
            None
        } else {
            Some(text_reply(Status::Forbidden, "Доступ запрещен"))
        }
    }
}

} // verus!
