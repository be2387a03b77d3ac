//! What the SharePoint, Dataverse and Azure connectors compute around their
//! HTTP calls: request URLs and forms, and the records read from responses.

pub mod auth;
pub mod dataverse;
pub mod sharepoint;
