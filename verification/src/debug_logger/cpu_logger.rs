//! The logger of the processor.

use crate::debug_logger::{DebugLogger, FromEnvList};
use vstd::prelude::*;
use vstd::string::StringExecFns;

verus! {

/// The logger of the processor: one switch for each topic.
pub struct CpuDebug {
    env_var: String,
    current_instruction: bool,
    current_register_values: bool,
    alu: bool,
    bitwise: bool,
    control: bool,
    ld: bool,
    stack: bool,
    interrupts: bool,
    gb_doc: bool,
}

/// The topics of the processor's logger.
pub enum Topic {
    CurrentInstruction,
    CurrentRegisterValues,
    Alu,
    Bitwise,
    Control,
    Ld,
    Stack,
    Interrupts,
    GbDoc,
}

/// The name by which a topic is switched on.
pub open spec fn topic_name(topic: Topic) -> Seq<char> {
    match topic {
        Topic::CurrentInstruction => "PC"@,
        Topic::CurrentRegisterValues => "REG"@,
        Topic::Alu => "ALU"@,
        Topic::Bitwise => "BIT"@,
        Topic::Control => "CONTROL"@,
        Topic::Ld => "LD"@,
        Topic::Stack => "STACK"@,
        Topic::Interrupts => "INTS"@,
        Topic::GbDoc => "GB_DOC"@,
    }
}

/// Whether a list of names holds a name.
fn contains(list: &[String], name: &str) -> (r: bool)
    ensures
        r == list.deep_view().contains(name@),
{
    let wanted = String::from_str(name);
    let mut index: usize = 0;
    while index < list.len()
        invariant
            index <= list.len(),
            wanted@ == name@,
            forall|i: int| 0 <= i < index ==> list.deep_view()[i] != name@,
        decreases list.len() - index,
    {
        if list[index] == wanted {
            proof {
                assert(list.deep_view()[index as int] == name@);
            }
            return true;
        }
        index += 1;
    }
    false
}

impl CpuDebug {
    /// Whether the switch of a topic is on.
    pub closed spec fn switch(&self, topic: Topic) -> bool {
        match topic {
            Topic::CurrentInstruction => self.current_instruction,
            Topic::CurrentRegisterValues => self.current_register_values,
            Topic::Alu => self.alu,
            Topic::Bitwise => self.bitwise,
            Topic::Control => self.control,
            Topic::Ld => self.ld,
            Topic::Stack => self.stack,
            Topic::Interrupts => self.interrupts,
            Topic::GbDoc => self.gb_doc,
        }
    }

    /// Whether logging is switched on for a topic name: for the name of a
    /// topic its switch decides, and nothing is logged under any other name.
    pub fn should_log(&self, t: &str) -> (r: bool)
        ensures
            r == self.logs(t@),
    {
        let name = String::from_str(t);
        if name == String::from_str("PC") {
            self.current_instruction
        } else if name == String::from_str("REG") {
            self.current_register_values
        } else if name == String::from_str("ALU") {
            self.alu
        } else if name == String::from_str("BIT") {
            self.bitwise
        } else if name == String::from_str("CONTROL") {
            self.control
        } else if name == String::from_str("LD") {
            self.ld
        } else if name == String::from_str("STACK") {
            self.stack
        } else if name == String::from_str("INTS") {
            self.interrupts
        } else if name == String::from_str("GB_DOC") {
            self.gb_doc
        } else {
            false
        }
    }
}

impl Default for CpuDebug {
    fn default() -> (r: Self)
        ensures
            forall|topic: Topic| !r.switch(topic),
    {
        CpuDebug {
            env_var: String::new(),
            current_instruction: false,
            current_register_values: false,
            alu: false,
            bitwise: false,
            control: false,
            ld: false,
            stack: false,
            interrupts: false,
            gb_doc: false,
        }
    }
}

impl FromEnvList for CpuDebug {
    /// Each switch is on exactly where the list holds the name of its
    /// topic.
    open spec fn built_from(&self, env_list: Seq<Seq<char>>) -> bool {
        forall|topic: Topic| self.switch(topic) == env_list.contains(topic_name(topic))
    }

    fn from_env_list(debug_list: &[String]) -> (r: Self) {
        CpuDebug {
            env_var: String::new(),
            current_instruction: contains(debug_list, "PC"),
            current_register_values: contains(debug_list, "REG"),
            alu: contains(debug_list, "ALU"),
            bitwise: contains(debug_list, "BIT"),
            control: contains(debug_list, "CONTROL"),
            ld: contains(debug_list, "LD"),
            stack: contains(debug_list, "STACK"),
            interrupts: contains(debug_list, "INTS"),
            gb_doc: contains(debug_list, "GB_DOC"),
        }
    }
}

impl DebugLogger for CpuDebug {
    open spec fn logs(&self, topic: Seq<char>) -> bool {
        if topic == "PC"@ {
            self.switch(Topic::CurrentInstruction)
        } else if topic == "REG"@ {
            self.switch(Topic::CurrentRegisterValues)
        } else if topic == "ALU"@ {
            self.switch(Topic::Alu)
        } else if topic == "BIT"@ {
            self.switch(Topic::Bitwise)
        } else if topic == "CONTROL"@ {
            self.switch(Topic::Control)
        } else if topic == "LD"@ {
            self.switch(Topic::Ld)
        } else if topic == "STACK"@ {
            self.switch(Topic::Stack)
        } else if topic == "INTS"@ {
            self.switch(Topic::Interrupts)
        } else if topic == "GB_DOC"@ {
            self.switch(Topic::GbDoc)
        } else {
            false
        }
    }

    fn log<F>(&self, t: &str, f: F)
        where
            F: Fn(),
    {
        let should_log = self.should_log(t);
        if should_log {
            f()
        }
    }
}

} // verus!
