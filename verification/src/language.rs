//! The catalogue of supported programming languages and the fixed facts that
//! every later stage reads from it.

use vstd::prelude::*;
use vstd::string::*;
use crate::texts::text_views;

verus! {

/// A supported programming language.
#[derive(Debug, Clone, Copy, PartialEq, Eq, Structural)]
pub enum ProgrammingLanguage {
    C,
    Cpp,
    Cpp11,
    Cpp14,
    Cpp17,
    Cpp20,
    Python2,
    Python3,
    Java,
    Rust,
    Go,
    JavaScript,
    TypeScript,
}

impl ProgrammingLanguage {
    /// Whether the language belongs to the C++ family.
    pub open spec fn is_cpp_family(self) -> bool {
        self == ProgrammingLanguage::Cpp || self == ProgrammingLanguage::Cpp11 || self
            == ProgrammingLanguage::Cpp14 || self == ProgrammingLanguage::Cpp17 || self
            == ProgrammingLanguage::Cpp20
    }

    /// The extension of a source file, without the dot.
    pub open spec fn spec_file_extension(self) -> Seq<char> {
        match self {
            ProgrammingLanguage::C => "c"@,
            ProgrammingLanguage::Cpp
            | ProgrammingLanguage::Cpp11
            | ProgrammingLanguage::Cpp14
            | ProgrammingLanguage::Cpp17
            | ProgrammingLanguage::Cpp20 => "cpp"@,
            ProgrammingLanguage::Python2 | ProgrammingLanguage::Python3 => "py"@,
            ProgrammingLanguage::Java => "java"@,
            ProgrammingLanguage::Rust => "rs"@,
            ProgrammingLanguage::Go => "go"@,
            ProgrammingLanguage::JavaScript => "js"@,
            ProgrammingLanguage::TypeScript => "ts"@,
        }
    }

    /// The command that compiles or interprets a source file.
    pub open spec fn spec_default_compiler(self) -> Seq<char> {
        match self {
            ProgrammingLanguage::C => "gcc"@,
            ProgrammingLanguage::Cpp
            | ProgrammingLanguage::Cpp11
            | ProgrammingLanguage::Cpp14
            | ProgrammingLanguage::Cpp17
            | ProgrammingLanguage::Cpp20 => "g++"@,
            ProgrammingLanguage::Python2 => "python2"@,
            ProgrammingLanguage::Python3 => "python3"@,
            ProgrammingLanguage::Java => "javac"@,
            ProgrammingLanguage::Rust => "rustc"@,
            ProgrammingLanguage::Go => "go"@,
            ProgrammingLanguage::JavaScript => "node"@,
            ProgrammingLanguage::TypeScript => "ts-node"@,
        }
    }

    /// Whether a source file is compiled before it runs.
    pub open spec fn spec_needs_compilation(self) -> bool {
        self == ProgrammingLanguage::C || self.is_cpp_family() || self == ProgrammingLanguage::Java
            || self == ProgrammingLanguage::Rust || self == ProgrammingLanguage::Go
    }

    /// The language-standard flag of a C++ dialect.
    pub open spec fn spec_std_flag(self) -> Seq<char>
        recommends
            self.is_cpp_family(),
    {
        match self {
            ProgrammingLanguage::Cpp14 => "-std=c++14"@,
            ProgrammingLanguage::Cpp17 => "-std=c++17"@,
            ProgrammingLanguage::Cpp20 => "-std=c++20"@,
            _ => "-std=c++11"@,
        }
    }

    /// The flags handed to the compiler when a task names none of its own.
    pub open spec fn spec_default_compile_flags(self) -> Seq<Seq<char>> {
        if self == ProgrammingLanguage::C {
            seq!["-O2"@, "-Wall"@]
        } else if self.is_cpp_family() {
            seq!["-O2"@, "-Wall"@, self.spec_std_flag()]
        } else if self == ProgrammingLanguage::Java {
            seq!["-Xlint:all"@]
        } else if self == ProgrammingLanguage::Rust {
            seq!["-O"@]
        } else {
            Seq::empty()
        }
    }

    /// The command that starts the program once it is built.
    pub open spec fn spec_default_runtime(self) -> Seq<char> {
        match self {
            ProgrammingLanguage::C
            | ProgrammingLanguage::Cpp
            | ProgrammingLanguage::Cpp11
            | ProgrammingLanguage::Cpp14
            | ProgrammingLanguage::Cpp17
            | ProgrammingLanguage::Cpp20 => "./a.out"@,
            ProgrammingLanguage::Python2 => "python2"@,
            ProgrammingLanguage::Python3 => "python3"@,
            ProgrammingLanguage::Java => "java"@,
            ProgrammingLanguage::Rust | ProgrammingLanguage::Go => "./main"@,
            ProgrammingLanguage::JavaScript => "node"@,
            ProgrammingLanguage::TypeScript => "ts-node"@,
        }
    }

    /// The name under which the language is shown.
    pub open spec fn spec_as_str(self) -> Seq<char> {
        match self {
            ProgrammingLanguage::C => "C"@,
            ProgrammingLanguage::Cpp => "C++"@,
            ProgrammingLanguage::Cpp11 => "C++11"@,
            ProgrammingLanguage::Cpp14 => "C++14"@,
            ProgrammingLanguage::Cpp17 => "C++17"@,
            ProgrammingLanguage::Cpp20 => "C++20"@,
            ProgrammingLanguage::Python2 => "Python 2"@,
            ProgrammingLanguage::Python3 => "Python 3"@,
            ProgrammingLanguage::Java => "Java"@,
            ProgrammingLanguage::Rust => "Rust"@,
            ProgrammingLanguage::Go => "Go"@,
            ProgrammingLanguage::JavaScript => "JavaScript"@,
            ProgrammingLanguage::TypeScript => "TypeScript"@,
        }
    }

    /// Returns the extension of a source file in this language.
    pub fn file_extension(&self) -> (ext: &'static str)
        ensures
            ext@ == self.spec_file_extension(),
    {
        match self {
            ProgrammingLanguage::C => "c",
            ProgrammingLanguage::Cpp => "cpp",
            ProgrammingLanguage::Cpp11 => "cpp",
            ProgrammingLanguage::Cpp14 => "cpp",
            ProgrammingLanguage::Cpp17 => "cpp",
            ProgrammingLanguage::Cpp20 => "cpp",
            ProgrammingLanguage::Python2 => "py",
            ProgrammingLanguage::Python3 => "py",
            ProgrammingLanguage::Java => "java",
            ProgrammingLanguage::Rust => "rs",
            ProgrammingLanguage::Go => "go",
            ProgrammingLanguage::JavaScript => "js",
            ProgrammingLanguage::TypeScript => "ts",
        }
    }

    /// Returns the compiler or interpreter command of this language.
    pub fn default_compiler(&self) -> (cmd: &'static str)
        ensures
            cmd@ == self.spec_default_compiler(),
    {
        match self {
            ProgrammingLanguage::C => "gcc",
            ProgrammingLanguage::Cpp => "g++",
            ProgrammingLanguage::Cpp11 => "g++",
            ProgrammingLanguage::Cpp14 => "g++",
            ProgrammingLanguage::Cpp17 => "g++",
            ProgrammingLanguage::Cpp20 => "g++",
            ProgrammingLanguage::Python2 => "python2",
            ProgrammingLanguage::Python3 => "python3",
            ProgrammingLanguage::Java => "javac",
            ProgrammingLanguage::Rust => "rustc",
            ProgrammingLanguage::Go => "go",
            ProgrammingLanguage::JavaScript => "node",
            ProgrammingLanguage::TypeScript => "ts-node",
        }
    }

    /// Returns whether a program in this language is compiled before it runs.
    pub fn needs_compilation(&self) -> (needed: bool)
        ensures
            needed == self.spec_needs_compilation(),
    {
        match self {
            ProgrammingLanguage::C
            | ProgrammingLanguage::Cpp
            | ProgrammingLanguage::Cpp11
            | ProgrammingLanguage::Cpp14
            | ProgrammingLanguage::Cpp17
            | ProgrammingLanguage::Cpp20
            | ProgrammingLanguage::Java
            | ProgrammingLanguage::Rust
            | ProgrammingLanguage::Go => true,
            ProgrammingLanguage::Python2
            | ProgrammingLanguage::Python3
            | ProgrammingLanguage::JavaScript
            | ProgrammingLanguage::TypeScript => false,
        }
    }

    /// Returns the default compilation flags of this language, in the order in
    /// which they are handed to the compiler.
    pub fn default_compile_flags(&self) -> (flags: Vec<String>)
        ensures
            text_views(flags@) == self.spec_default_compile_flags(),
    {
        let mut flags: Vec<String> = Vec::new();
        match self {
            ProgrammingLanguage::C => {
                flags.push("-O2".to_string());
                flags.push("-Wall".to_string());
            },
            ProgrammingLanguage::Cpp | ProgrammingLanguage::Cpp11 => {
                flags.push("-O2".to_string());
                flags.push("-Wall".to_string());
                flags.push("-std=c++11".to_string());
            },
            ProgrammingLanguage::Cpp14 => {
                flags.push("-O2".to_string());
                flags.push("-Wall".to_string());
                flags.push("-std=c++14".to_string());
            },
            ProgrammingLanguage::Cpp17 => {
                flags.push("-O2".to_string());
                flags.push("-Wall".to_string());
                flags.push("-std=c++17".to_string());
            },
            ProgrammingLanguage::Cpp20 => {
                flags.push("-O2".to_string());
                flags.push("-Wall".to_string());
                flags.push("-std=c++20".to_string());
            },
            ProgrammingLanguage::Java => {
                flags.push("-Xlint:all".to_string());
            },
            ProgrammingLanguage::Rust => {
                flags.push("-O".to_string());
            },
            _ => {},
        }
        assert(text_views(flags@) =~= self.spec_default_compile_flags());
        flags
    }

    /// Returns the command that runs a program in this language.
    pub fn default_runtime(&self) -> (cmd: &'static str)
        ensures
            cmd@ == self.spec_default_runtime(),
    {
        match self {
            ProgrammingLanguage::C => "./a.out",
            ProgrammingLanguage::Cpp => "./a.out",
            ProgrammingLanguage::Cpp11 => "./a.out",
            ProgrammingLanguage::Cpp14 => "./a.out",
            ProgrammingLanguage::Cpp17 => "./a.out",
            ProgrammingLanguage::Cpp20 => "./a.out",
            ProgrammingLanguage::Python2 => "python2",
            ProgrammingLanguage::Python3 => "python3",
            ProgrammingLanguage::Java => "java",
            ProgrammingLanguage::Rust => "./main",
            ProgrammingLanguage::Go => "./main",
            ProgrammingLanguage::JavaScript => "node",
            ProgrammingLanguage::TypeScript => "ts-node",
        }
    }

    /// Returns the display name of this language.
    pub fn as_str(&self) -> (name: &'static str)
        ensures
            name@ == self.spec_as_str(),
    {
        match self {
            ProgrammingLanguage::C => "C",
            ProgrammingLanguage::Cpp => "C++",
            ProgrammingLanguage::Cpp11 => "C++11",
            ProgrammingLanguage::Cpp14 => "C++14",
            ProgrammingLanguage::Cpp17 => "C++17",
            ProgrammingLanguage::Cpp20 => "C++20",
            ProgrammingLanguage::Python2 => "Python 2",
            ProgrammingLanguage::Python3 => "Python 3",
            ProgrammingLanguage::Java => "Java",
            ProgrammingLanguage::Rust => "Rust",
            ProgrammingLanguage::Go => "Go",
            ProgrammingLanguage::JavaScript => "JavaScript",
            ProgrammingLanguage::TypeScript => "TypeScript",
        }
    }
}

} // verus!
