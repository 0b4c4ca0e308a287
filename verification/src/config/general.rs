//! General settings of the application.

use vstd::prelude::*;

verus! {

/// The title and the version that the application shows.
#[derive(Debug)]
pub struct GeneralConfig {
    pub title: String,
    pub version: String,
}

impl View for GeneralConfig {
    type V = (Seq<char>, Seq<char>);

    open spec fn view(&self) -> (Seq<char>, Seq<char>) {
        (self.title@, self.version@)
    }
}

impl Clone for GeneralConfig {
    fn clone(&self) -> (r: GeneralConfig)
        ensures
            r@ == self@,
    {
        GeneralConfig { title: self.title.clone(), version: self.version.clone() }
    }
}

impl Default for GeneralConfig {
    fn default() -> (r: GeneralConfig)
        ensures
            r@ == (Seq::<char>::empty(), Seq::<char>::empty()),
    {
        GeneralConfig { title: String::new(), version: String::new() }
    }
}

} // verus!
