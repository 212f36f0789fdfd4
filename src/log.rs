use vstd::prelude::*;
use vstd::string::StringExecFns;

verus! {

/// A named category of log output.
pub struct Logger {
    name: String,
}

impl View for Logger {
    type V = Seq<char>;

    closed spec fn view(&self) -> Seq<char> {
        self.name@
    }
}

impl Logger {
    /// A logger for the category `name`.
    pub fn new(name: &str) -> (r: Logger)
        ensures
            r@ == name@,
    {
        Logger { name: name.to_owned() }
    }

    /// The line that this logger writes for `output`: `[name] output`.
    pub fn format_line(&self, output: &str) -> (r: String)
        ensures
            r@ == seq!['['] + self@ + seq![']', ' '] + output@,
    {
        let mut line = String::new();
        line.append("[");
        line.append(self.name.as_str());
        line.append("] ");
        line.append(output);
        proof {
            reveal_strlit("[");
            reveal_strlit("] ");
            assert(line@ =~= seq!['['] + self@ + seq![']', ' '] + output@);
        }
        line
    }
}

} // verus!
