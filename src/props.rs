use vstd::prelude::*;

verus! {

/// Text that the properties component renders for a name and an email.
pub open spec fn summary_spec(name: Seq<char>, email: Seq<char>) -> Seq<char> {
    "Got properties in a MyProps struct with name `"@ + name + "` and email `"@ + email + "`"@
}

/// Properties handed from a parent to the properties component.
pub struct MyProps {
    pub name: String,
    pub email: String,
}

impl MyProps {
    pub fn new(name: String, email: String) -> (r: MyProps)
        ensures
            r.name@ == name@,
            r.email@ == email@,
    {
        MyProps { name, email }
    }

    /// The text rendered for these properties.
    pub fn summary(&self) -> (r: String)
        ensures
            r@ == summary_spec(self.name@, self.email@),
    {
        let mut s = String::from_str("Got properties in a MyProps struct with name `");
        s.append(self.name.as_str());
        s.append("` and email `");
        s.append(self.email.as_str());
        s.append("`");
        s
    }
}

} // verus!
