//! A Kubernetes operator's decision logic for Nervix clusters: the custom
//! resource model, the manifests the operator applies, the status it reports
//! and the reconcile protocol it follows.
//!
//! Every data type has a `...View` counterpart, its value over `Seq<char>` and
//! `Seq`, given by `deep_view`; the contracts are stated over those views.
pub mod text;
pub mod objects;
pub mod api;
pub mod manifests;
pub mod controller;
pub mod laws;
