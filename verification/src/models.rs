//! The record shapes read from (or, for the `New*` shapes, destined for)
//! the relational store. Records are read-only snapshots: the fetch
//! operation produces them fresh on every call and nothing here mutates
//! or persists them.
//!
//! Timestamps are carried as plain seconds since the Unix epoch; the
//! shells around the library convert to and from their calendar types.

use vstd::prelude::*;

verus! {

/// One instrument row. The identifier is required and unique in the
/// store; every other field may be absent.
#[derive(Debug, PartialEq)]
pub struct Instrument {
    pub id: i32,
    pub name: Option<String>,
    pub make: Option<String>,
    pub model: Option<String>,
    /// Maps to the `type` column in the database.
    pub type_: Option<String>,
    pub country_of_manufacture: Option<String>,
    pub serial_number: Option<String>,
    pub sku: Option<String>,
    pub new: Option<bool>,
    /// Seconds since the Unix epoch.
    pub created_at: Option<i64>,
    /// Seconds since the Unix epoch.
    pub updated_at: Option<i64>,
    pub created_by: Option<String>,
    pub updated_by: Option<String>,
    /// Foreign reference to a model entity.
    pub model_id: Option<i32>,
    pub line: Option<String>,
    pub picture: Option<String>,
}

/// Clones an optional text field, provably unchanged.
fn clone_opt_string(s: &Option<String>) -> (r: Option<String>)
    ensures
        r == *s,
{
    match s {
        Some(x) => Some(x.clone()),
        None => None,
    }
}

impl Clone for Instrument {
    /// A clone is equal to the original, field for field.
    fn clone(&self) -> (r: Self)
        ensures
            r == *self,
    {
        Instrument {
            id: self.id,
            name: clone_opt_string(&self.name),
            make: clone_opt_string(&self.make),
            model: clone_opt_string(&self.model),
            type_: clone_opt_string(&self.type_),
            country_of_manufacture: clone_opt_string(&self.country_of_manufacture),
            serial_number: clone_opt_string(&self.serial_number),
            sku: clone_opt_string(&self.sku),
            new: self.new,
            created_at: self.created_at,
            updated_at: self.updated_at,
            created_by: clone_opt_string(&self.created_by),
            updated_by: clone_opt_string(&self.updated_by),
            model_id: self.model_id,
            line: clone_opt_string(&self.line),
            picture: clone_opt_string(&self.picture),
        }
    }
}

/// One blog-post row, kept alongside the instrument catalog.
#[derive(Debug, PartialEq)]
pub struct Post {
    pub id: i32,
    pub title: String,
    pub body: String,
    pub published: bool,
}

/// A post as handed to the store for insertion. This system itself has
/// no write path; the shape exists for callers that do.
#[derive(Debug)]
pub struct NewPost<'a> {
    pub title: &'a str,
    pub body: &'a str,
}

/// An instrument as handed to the store for insertion; every field may
/// be absent. This system itself has no write path.
#[derive(Debug)]
pub struct NewInstrument<'a> {
    pub name: Option<&'a str>,
    pub make: Option<&'a str>,
    pub model: Option<&'a str>,
    pub type_: Option<&'a str>,
    pub country_of_manufacture: Option<&'a str>,
    pub serial_number: Option<&'a str>,
    pub sku: Option<&'a str>,
    pub new: Option<bool>,
    /// Seconds since the Unix epoch.
    pub created_at: Option<i64>,
    /// Seconds since the Unix epoch.
    pub updated_at: Option<i64>,
    pub created_by: Option<&'a str>,
    pub updated_by: Option<&'a str>,
    pub model_id: Option<i32>,
    pub line: Option<&'a str>,
    pub picture: Option<&'a str>,
}

} // verus!
