//! Authentication and admission decisions for the Creator Signal build: scoped automation
//! identities and a small OpenID Connect integration.

pub mod text;
pub mod digest;
pub mod json;
pub mod template;
pub mod policy;
pub mod automation;
pub mod scoped_automation;
pub mod oidc;
