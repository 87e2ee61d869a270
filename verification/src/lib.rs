//! The rules of a service that makes images and videos with generative models:
//! what is asked of it and what is refused, the jobs and the runs that do the
//! work, the models that are installed, loaded, copied and tried, and what is read
//! of the machine. What the service does outside (files, processes, the network)
//! is left to the program around it, which hands in what happened and carries out
//! what is to be done.

pub mod asset;
pub mod backup;
pub mod browse;
pub mod canvas;
pub mod capability;
pub mod catalog;
pub mod chat;
pub mod cloud;
pub mod dashboard;
pub mod digest;
pub mod error;
pub mod event;
pub mod generation;
pub mod host;
pub mod identity;
pub mod image_run;
pub mod install;
pub mod installed;
pub mod intent;
pub mod job;
pub mod json;
pub mod lab;
pub mod lookup;
pub mod member;
pub mod note;
pub mod order;
pub mod pack;
pub mod preflight;
pub mod project;
pub mod readiness;
pub mod run;
pub mod runtime;
pub mod settings;
pub mod system;
pub mod text;
pub mod video_laws;
pub mod video_run;
pub mod worker;
