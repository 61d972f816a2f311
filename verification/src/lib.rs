//! Verified core of a schema migration engine: conversion of DMMF documents
//! into datamodels, the decisions of the migration commands, the SQL
//! statements that the SQL connector issues, and the rendering of errors.

pub mod text;
pub mod dml;
pub mod dmmf;
pub mod datetime;
pub mod database;
pub mod destructive;
pub mod connector;
pub mod persistence;
pub mod rpc;
pub mod commands;
pub mod nested_delete;
pub mod template;
pub mod user_facing_errors;
