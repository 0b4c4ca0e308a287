//! What the package manifest says of the application.

use vstd::prelude::*;

verus! {

/// The package manifest.
#[derive(Debug)]
pub struct Config {
    pub package: Package,
}

/// The package table of the manifest.
#[derive(Debug)]
pub struct Package {
    pub name: String,
    pub authors: Vec<String>,
    pub description: String,
    pub version: String,
    pub edition: String,
    pub build: String,
    pub license: Option<String>,
    pub license_file: Option<String>,
    pub repository: String,
}

/// What a `Package` holds.
pub struct PackageView {
    pub name: Seq<char>,
    pub authors: Seq<Seq<char>>,
    pub description: Seq<char>,
    pub version: Seq<char>,
    pub edition: Seq<char>,
    pub build: Seq<char>,
    pub license: Option<Seq<char>>,
    pub license_file: Option<Seq<char>>,
    pub repository: Seq<char>,
}

impl View for Package {
    type V = PackageView;

    open spec fn view(&self) -> PackageView {
        PackageView {
            name: self.name@,
            authors: self.authors.deep_view(),
            description: self.description@,
            version: self.version@,
            edition: self.edition@,
            build: self.build@,
            license: self.license.deep_view(),
            license_file: self.license_file.deep_view(),
            repository: self.repository@,
        }
    }
}

impl PackageView {
    /// The package table with nothing set.
    pub open spec fn empty() -> PackageView {
        PackageView {
            name: Seq::empty(),
            authors: Seq::empty(),
            description: Seq::empty(),
            version: Seq::empty(),
            edition: Seq::empty(),
            build: Seq::empty(),
            license: None,
            license_file: None,
            repository: Seq::empty(),
        }
    }
}

impl Clone for Package {
    fn clone(&self) -> (r: Package)
        ensures
            r@ == self@,
    {
        let mut authors: Vec<String> = Vec::new();
        let mut i: usize = 0;
        while i < self.authors.len()
            invariant
                i <= self.authors.len(),
                authors@.len() == i,
                forall|j: int| 0 <= j < i ==> (#[trigger] authors@[j])@ == self.authors@[j]@,
            decreases self.authors.len() - i,
        {
            authors.push(self.authors[i].clone());
            i = i + 1;
        }
        assert(authors.deep_view() =~= self.authors.deep_view());
        Package {
            name: self.name.clone(),
            authors,
            description: self.description.clone(),
            version: self.version.clone(),
            edition: self.edition.clone(),
            build: self.build.clone(),
            license: self.license.clone(),
            license_file: self.license_file.clone(),
            repository: self.repository.clone(),
        }
    }
}

impl Default for Package {
    fn default() -> (r: Package)
        ensures
            r@ == PackageView::empty(),
    {
        let r = Package {
            name: String::new(),
            authors: Vec::new(),
            description: String::new(),
            version: String::new(),
            edition: String::new(),
            build: String::new(),
            license: None,
            license_file: None,
            repository: String::new(),
        };
        assert(r.authors.deep_view() =~= Seq::<Seq<char>>::empty());
        r
    }
}

impl View for Config {
    type V = PackageView;

    open spec fn view(&self) -> PackageView {
        self.package@
    }
}

impl Clone for Config {
    fn clone(&self) -> (r: Config)
        ensures
            r@ == self@,
    {
        Config { package: self.package.clone() }
    }
}

impl Default for Config {
    fn default() -> (r: Config)
        ensures
            r@ == PackageView::empty(),
    {
        Config { package: Package::default() }
    }
}

} // verus!
