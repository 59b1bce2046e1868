//! Data that the owner of a profile may hide.

use vstd::prelude::*;

verus! {

/// Data of a profile: hidden by its owner, or visible.
#[derive(Debug)]
pub enum Visibility<T> {
    /// The owner keeps the data private.
    Hidden,
    /// The owner shows the data.
    Visible(T),
}

impl<T> Visibility<T> {
    /// The data where it is visible.
    pub open spec fn spec_option(self) -> Option<T> {
        match self {
            Visibility::Hidden => None,
            Visibility::Visible(data) => Some(data),
        }
    }

    /// The data where it is visible.
    pub fn into_option(self) -> (data: Option<T>)
        ensures
            data == self.spec_option(),
    {
        match self {
            Visibility::Hidden => None,
            Visibility::Visible(data) => Some(data),
        }
    }

    /// The data where it is visible.
    pub fn as_option_ref(&self) -> (data: Option<&T>)
        ensures
            data == match *self {
                Visibility::Hidden => None::<&T>,
                Visibility::Visible(data) => Some(&data),
            },
    {
        match self {
            Visibility::Hidden => None,
            Visibility::Visible(data) => Some(data),
        }
    }

    /// Data that is visible where there is any.
    pub fn from_option(opt: Option<T>) -> (data: Self)
        ensures
            data.spec_option() == opt,
    {
        match opt {
            Some(data) => Visibility::Visible(data),
            None => Visibility::Hidden,
        }
    }
}

} // verus!
