//! The elements of a Doxygen compound file, and their mathematical model.
use vstd::prelude::*;

use crate::strings::str_eq;

verus! {

/// A relation drawn in a dependency or inheritance graph.
#[derive(Debug, Clone, Copy, PartialEq, Eq, Structural)]
pub enum DoxGraphRelation {
    Include,
    Usage,
    TemplateInstance,
    PublicInheritance,
    ProtectedInheritance,
    PrivateInheritance,
    TypeConstraint,
}

impl DoxGraphRelation {
    /// The value that the XML text `s` names, if it names one.
    pub open spec fn spec_from_str(s: Seq<char>) -> Option<DoxGraphRelation> {
        if s == "include"@ {
            Some(DoxGraphRelation::Include)
        } else if s == "usage"@ {
            Some(DoxGraphRelation::Usage)
        } else if s == "template-instance"@ {
            Some(DoxGraphRelation::TemplateInstance)
        } else if s == "public-inheritance"@ {
            Some(DoxGraphRelation::PublicInheritance)
        } else if s == "protected-inheritance"@ {
            Some(DoxGraphRelation::ProtectedInheritance)
        } else if s == "private-inheritance"@ {
            Some(DoxGraphRelation::PrivateInheritance)
        } else if s == "type-constraint"@ {
            Some(DoxGraphRelation::TypeConstraint)
        } else {
            None
        }
    }

    /// Reads the value from its XML text.
    pub fn from_str(s: &str) -> (r: Option<DoxGraphRelation>)
        ensures
            r == DoxGraphRelation::spec_from_str(s@),
    {
        if str_eq(s, "include") {
            Some(DoxGraphRelation::Include)
        } else if str_eq(s, "usage") {
            Some(DoxGraphRelation::Usage)
        } else if str_eq(s, "template-instance") {
            Some(DoxGraphRelation::TemplateInstance)
        } else if str_eq(s, "public-inheritance") {
            Some(DoxGraphRelation::PublicInheritance)
        } else if str_eq(s, "protected-inheritance") {
            Some(DoxGraphRelation::ProtectedInheritance)
        } else if str_eq(s, "private-inheritance") {
            Some(DoxGraphRelation::PrivateInheritance)
        } else if str_eq(s, "type-constraint") {
            Some(DoxGraphRelation::TypeConstraint)
        } else {
            None
        }
    }
}

/// What a reference points at.
#[derive(Debug, Clone, Copy, PartialEq, Eq, Structural)]
pub enum DoxRefKind {
    Compound,
    Member,
}

impl DoxRefKind {
    /// The value that the XML text `s` names, if it names one.
    pub open spec fn spec_from_str(s: Seq<char>) -> Option<DoxRefKind> {
        if s == "compound"@ {
            Some(DoxRefKind::Compound)
        } else if s == "member"@ {
            Some(DoxRefKind::Member)
        } else {
            None
        }
    }

    /// Reads the value from its XML text.
    pub fn from_str(s: &str) -> (r: Option<DoxRefKind>)
        ensures
            r == DoxRefKind::spec_from_str(s@),
    {
        if str_eq(s, "compound") {
            Some(DoxRefKind::Compound)
        } else if str_eq(s, "member") {
            Some(DoxRefKind::Member)
        } else {
            None
        }
    }
}

/// The kind of a member definition.
#[derive(Debug, Clone, Copy, PartialEq, Eq, Structural)]
pub enum DoxMemberKind {
    Define,
    Property,
    Event,
    Variable,
    Typedef,
    Enum,
    Function,
    Signal,
    Prototype,
    Friend,
    Dcop,
    Slot,
    Interface,
    Service,
}

impl DoxMemberKind {
    /// The value that the XML text `s` names, if it names one.
    pub open spec fn spec_from_str(s: Seq<char>) -> Option<DoxMemberKind> {
        if s == "define"@ {
            Some(DoxMemberKind::Define)
        } else if s == "property"@ {
            Some(DoxMemberKind::Property)
        } else if s == "event"@ {
            Some(DoxMemberKind::Event)
        } else if s == "variable"@ {
            Some(DoxMemberKind::Variable)
        } else if s == "typedef"@ {
            Some(DoxMemberKind::Typedef)
        } else if s == "enum"@ {
            Some(DoxMemberKind::Enum)
        } else if s == "function"@ {
            Some(DoxMemberKind::Function)
        } else if s == "signal"@ {
            Some(DoxMemberKind::Signal)
        } else if s == "prototype"@ {
            Some(DoxMemberKind::Prototype)
        } else if s == "friend"@ {
            Some(DoxMemberKind::Friend)
        } else if s == "dcop"@ {
            Some(DoxMemberKind::Dcop)
        } else if s == "slot"@ {
            Some(DoxMemberKind::Slot)
        } else if s == "interface"@ {
            Some(DoxMemberKind::Interface)
        } else if s == "service"@ {
            Some(DoxMemberKind::Service)
        } else {
            None
        }
    }

    /// Reads the value from its XML text.
    pub fn from_str(s: &str) -> (r: Option<DoxMemberKind>)
        ensures
            r == DoxMemberKind::spec_from_str(s@),
    {
        if str_eq(s, "define") {
            Some(DoxMemberKind::Define)
        } else if str_eq(s, "property") {
            Some(DoxMemberKind::Property)
        } else if str_eq(s, "event") {
            Some(DoxMemberKind::Event)
        } else if str_eq(s, "variable") {
            Some(DoxMemberKind::Variable)
        } else if str_eq(s, "typedef") {
            Some(DoxMemberKind::Typedef)
        } else if str_eq(s, "enum") {
            Some(DoxMemberKind::Enum)
        } else if str_eq(s, "function") {
            Some(DoxMemberKind::Function)
        } else if str_eq(s, "signal") {
            Some(DoxMemberKind::Signal)
        } else if str_eq(s, "prototype") {
            Some(DoxMemberKind::Prototype)
        } else if str_eq(s, "friend") {
            Some(DoxMemberKind::Friend)
        } else if str_eq(s, "dcop") {
            Some(DoxMemberKind::Dcop)
        } else if str_eq(s, "slot") {
            Some(DoxMemberKind::Slot)
        } else if str_eq(s, "interface") {
            Some(DoxMemberKind::Interface)
        } else if str_eq(s, "service") {
            Some(DoxMemberKind::Service)
        } else {
            None
        }
    }
}

/// The protection of a member or compound.
#[derive(Debug, Clone, Copy, PartialEq, Eq, Structural)]
pub enum DoxProtectionKind {
    Public,
    Protected,
    Private,
    Package,
}

impl DoxProtectionKind {
    /// The value that the XML text `s` names, if it names one.
    pub open spec fn spec_from_str(s: Seq<char>) -> Option<DoxProtectionKind> {
        if s == "public"@ {
            Some(DoxProtectionKind::Public)
        } else if s == "protected"@ {
            Some(DoxProtectionKind::Protected)
        } else if s == "private"@ {
            Some(DoxProtectionKind::Private)
        } else if s == "package"@ {
            Some(DoxProtectionKind::Package)
        } else {
            None
        }
    }

    /// Reads the value from its XML text.
    pub fn from_str(s: &str) -> (r: Option<DoxProtectionKind>)
        ensures
            r == DoxProtectionKind::spec_from_str(s@),
    {
        if str_eq(s, "public") {
            Some(DoxProtectionKind::Public)
        } else if str_eq(s, "protected") {
            Some(DoxProtectionKind::Protected)
        } else if str_eq(s, "private") {
            Some(DoxProtectionKind::Private)
        } else if str_eq(s, "package") {
            Some(DoxProtectionKind::Package)
        } else {
            None
        }
    }
}

/// The reference qualifier of a member function.
#[derive(Debug, Clone, Copy, PartialEq, Eq, Structural)]
pub enum DoxRefQualifierKind {
    Lvalue,
    Rvalue,
}

impl DoxRefQualifierKind {
    /// The value that the XML text `s` names, if it names one.
    pub open spec fn spec_from_str(s: Seq<char>) -> Option<DoxRefQualifierKind> {
        if s == "lvalue"@ {
            Some(DoxRefQualifierKind::Lvalue)
        } else if s == "rvalue"@ {
            Some(DoxRefQualifierKind::Rvalue)
        } else {
            None
        }
    }

    /// Reads the value from its XML text.
    pub fn from_str(s: &str) -> (r: Option<DoxRefQualifierKind>)
        ensures
            r == DoxRefQualifierKind::spec_from_str(s@),
    {
        if str_eq(s, "lvalue") {
            Some(DoxRefQualifierKind::Lvalue)
        } else if str_eq(s, "rvalue") {
            Some(DoxRefQualifierKind::Rvalue)
        } else {
            None
        }
    }
}

/// The programming language of a compound.
#[derive(Debug, Clone, Copy, PartialEq, Eq, Structural)]
pub enum DoxLanguage {
    Unknown,
    IDL,
    Java,
    CSharp,
    D,
    PHP,
    ObjectiveC,
    CPlusPlus,
    JavaScript,
    Python,
    Fortran,
    VHDL,
    XML,
    SQL,
    Markdown,
    Slice,
    Lex,
}

impl DoxLanguage {
    /// The value that the XML text `s` names, if it names one.
    pub open spec fn spec_from_str(s: Seq<char>) -> Option<DoxLanguage> {
        if s == "Unknown"@ {
            Some(DoxLanguage::Unknown)
        } else if s == "IDL"@ {
            Some(DoxLanguage::IDL)
        } else if s == "Java"@ {
            Some(DoxLanguage::Java)
        } else if s == "C#"@ {
            Some(DoxLanguage::CSharp)
        } else if s == "D"@ {
            Some(DoxLanguage::D)
        } else if s == "PHP"@ {
            Some(DoxLanguage::PHP)
        } else if s == "Objective-C"@ {
            Some(DoxLanguage::ObjectiveC)
        } else if s == "C++"@ {
            Some(DoxLanguage::CPlusPlus)
        } else if s == "JavaScript"@ {
            Some(DoxLanguage::JavaScript)
        } else if s == "Python"@ {
            Some(DoxLanguage::Python)
        } else if s == "Fortran"@ {
            Some(DoxLanguage::Fortran)
        } else if s == "VHDL"@ {
            Some(DoxLanguage::VHDL)
        } else if s == "XML"@ {
            Some(DoxLanguage::XML)
        } else if s == "SQL"@ {
            Some(DoxLanguage::SQL)
        } else if s == "Markdown"@ {
            Some(DoxLanguage::Markdown)
        } else if s == "Slice"@ {
            Some(DoxLanguage::Slice)
        } else if s == "Lex"@ {
            Some(DoxLanguage::Lex)
        } else {
            None
        }
    }

    /// Reads the value from its XML text.
    pub fn from_str(s: &str) -> (r: Option<DoxLanguage>)
        ensures
            r == DoxLanguage::spec_from_str(s@),
    {
        if str_eq(s, "Unknown") {
            Some(DoxLanguage::Unknown)
        } else if str_eq(s, "IDL") {
            Some(DoxLanguage::IDL)
        } else if str_eq(s, "Java") {
            Some(DoxLanguage::Java)
        } else if str_eq(s, "C#") {
            Some(DoxLanguage::CSharp)
        } else if str_eq(s, "D") {
            Some(DoxLanguage::D)
        } else if str_eq(s, "PHP") {
            Some(DoxLanguage::PHP)
        } else if str_eq(s, "Objective-C") {
            Some(DoxLanguage::ObjectiveC)
        } else if str_eq(s, "C++") {
            Some(DoxLanguage::CPlusPlus)
        } else if str_eq(s, "JavaScript") {
            Some(DoxLanguage::JavaScript)
        } else if str_eq(s, "Python") {
            Some(DoxLanguage::Python)
        } else if str_eq(s, "Fortran") {
            Some(DoxLanguage::Fortran)
        } else if str_eq(s, "VHDL") {
            Some(DoxLanguage::VHDL)
        } else if str_eq(s, "XML") {
            Some(DoxLanguage::XML)
        } else if str_eq(s, "SQL") {
            Some(DoxLanguage::SQL)
        } else if str_eq(s, "Markdown") {
            Some(DoxLanguage::Markdown)
        } else if str_eq(s, "Slice") {
            Some(DoxLanguage::Slice)
        } else if str_eq(s, "Lex") {
            Some(DoxLanguage::Lex)
        } else {
            None
        }
    }
}

/// Whether and how a member function is virtual.
#[derive(Debug, Clone, Copy, PartialEq, Eq, Structural)]
pub enum DoxVirtualKind {
    NonVirtual,
    Virtual,
    PureVirtual,
}

impl DoxVirtualKind {
    /// The value that the XML text `s` names, if it names one.
    pub open spec fn spec_from_str(s: Seq<char>) -> Option<DoxVirtualKind> {
        if s == "non-virtual"@ {
            Some(DoxVirtualKind::NonVirtual)
        } else if s == "virtual"@ {
            Some(DoxVirtualKind::Virtual)
        } else if s == "pure-virtual"@ {
            Some(DoxVirtualKind::PureVirtual)
        } else {
            None
        }
    }

    /// Reads the value from its XML text.
    pub fn from_str(s: &str) -> (r: Option<DoxVirtualKind>)
        ensures
            r == DoxVirtualKind::spec_from_str(s@),
    {
        if str_eq(s, "non-virtual") {
            Some(DoxVirtualKind::NonVirtual)
        } else if str_eq(s, "virtual") {
            Some(DoxVirtualKind::Virtual)
        } else if str_eq(s, "pure-virtual") {
            Some(DoxVirtualKind::PureVirtual)
        } else {
            None
        }
    }
}

/// The kind of a compound.
#[derive(Debug, Clone, Copy, PartialEq, Eq, Structural)]
pub enum DoxCompoundKind {
    Class,
    Struct,
    Union,
    Interface,
    Protocol,
    Category,
    Exception,
    Service,
    Singleton,
    Module,
    Type,
    File,
    Namespace,
    Group,
    Page,
    Example,
    Dir,
    Concept,
}

impl DoxCompoundKind {
    /// The value that the XML text `s` names, if it names one.
    pub open spec fn spec_from_str(s: Seq<char>) -> Option<DoxCompoundKind> {
        if s == "class"@ {
            Some(DoxCompoundKind::Class)
        } else if s == "struct"@ {
            Some(DoxCompoundKind::Struct)
        } else if s == "union"@ {
            Some(DoxCompoundKind::Union)
        } else if s == "interface"@ {
            Some(DoxCompoundKind::Interface)
        } else if s == "protocol"@ {
            Some(DoxCompoundKind::Protocol)
        } else if s == "category"@ {
            Some(DoxCompoundKind::Category)
        } else if s == "exception"@ {
            Some(DoxCompoundKind::Exception)
        } else if s == "service"@ {
            Some(DoxCompoundKind::Service)
        } else if s == "singleton"@ {
            Some(DoxCompoundKind::Singleton)
        } else if s == "module"@ {
            Some(DoxCompoundKind::Module)
        } else if s == "type"@ {
            Some(DoxCompoundKind::Type)
        } else if s == "file"@ {
            Some(DoxCompoundKind::File)
        } else if s == "namespace"@ {
            Some(DoxCompoundKind::Namespace)
        } else if s == "group"@ {
            Some(DoxCompoundKind::Group)
        } else if s == "page"@ {
            Some(DoxCompoundKind::Page)
        } else if s == "example"@ {
            Some(DoxCompoundKind::Example)
        } else if s == "dir"@ {
            Some(DoxCompoundKind::Dir)
        } else if s == "concept"@ {
            Some(DoxCompoundKind::Concept)
        } else {
            None
        }
    }

    /// Reads the value from its XML text.
    pub fn from_str(s: &str) -> (r: Option<DoxCompoundKind>)
        ensures
            r == DoxCompoundKind::spec_from_str(s@),
    {
        if str_eq(s, "class") {
            Some(DoxCompoundKind::Class)
        } else if str_eq(s, "struct") {
            Some(DoxCompoundKind::Struct)
        } else if str_eq(s, "union") {
            Some(DoxCompoundKind::Union)
        } else if str_eq(s, "interface") {
            Some(DoxCompoundKind::Interface)
        } else if str_eq(s, "protocol") {
            Some(DoxCompoundKind::Protocol)
        } else if str_eq(s, "category") {
            Some(DoxCompoundKind::Category)
        } else if str_eq(s, "exception") {
            Some(DoxCompoundKind::Exception)
        } else if str_eq(s, "service") {
            Some(DoxCompoundKind::Service)
        } else if str_eq(s, "singleton") {
            Some(DoxCompoundKind::Singleton)
        } else if str_eq(s, "module") {
            Some(DoxCompoundKind::Module)
        } else if str_eq(s, "type") {
            Some(DoxCompoundKind::Type)
        } else if str_eq(s, "file") {
            Some(DoxCompoundKind::File)
        } else if str_eq(s, "namespace") {
            Some(DoxCompoundKind::Namespace)
        } else if str_eq(s, "group") {
            Some(DoxCompoundKind::Group)
        } else if str_eq(s, "page") {
            Some(DoxCompoundKind::Page)
        } else if str_eq(s, "example") {
            Some(DoxCompoundKind::Example)
        } else if str_eq(s, "dir") {
            Some(DoxCompoundKind::Dir)
        } else if str_eq(s, "concept") {
            Some(DoxCompoundKind::Concept)
        } else {
            None
        }
    }
}

/// The kind of a section of a compound.
#[derive(Debug, Clone, Copy, PartialEq, Eq, Structural)]
pub enum DoxSectionKind {
    UserDefined,
    PublicType,
    PublicFunc,
    PublicAttrib,
    PublicSlot,
    Signal,
    DcopFunc,
    Property,
    Event,
    PublicStaticFunc,
    PublicStaticAttrib,
    ProtectedType,
    ProtectedFunc,
    ProtectedAttrib,
    ProtectedSlot,
    ProtectedStaticFunc,
    ProtectedStaticAttrib,
    PackageType,
    PackageFunc,
    PackageAttrib,
    PackageStaticFunc,
    PackageStaticAttrib,
    PrivateType,
    PrivateFunc,
    PrivateAttrib,
    PrivateSlot,
    PrivateStaticFunc,
    PrivateStaticAttrib,
    Friend,
    Related,
    Define,
    Prototype,
    Typedef,
    Enum,
    Func,
    Var,
}

impl DoxSectionKind {
    /// The value that the XML text `s` names, if it names one.
    pub open spec fn spec_from_str(s: Seq<char>) -> Option<DoxSectionKind> {
        if s == "user-defined"@ {
            Some(DoxSectionKind::UserDefined)
        } else if s == "public-type"@ {
            Some(DoxSectionKind::PublicType)
        } else if s == "public-func"@ {
            Some(DoxSectionKind::PublicFunc)
        } else if s == "public-attrib"@ {
            Some(DoxSectionKind::PublicAttrib)
        } else if s == "public-slot"@ {
            Some(DoxSectionKind::PublicSlot)
        } else if s == "signal"@ {
            Some(DoxSectionKind::Signal)
        } else if s == "dcop-func"@ {
            Some(DoxSectionKind::DcopFunc)
        } else if s == "property"@ {
            Some(DoxSectionKind::Property)
        } else if s == "event"@ {
            Some(DoxSectionKind::Event)
        } else if s == "public-static-func"@ {
            Some(DoxSectionKind::PublicStaticFunc)
        } else if s == "public-static-attrib"@ {
            Some(DoxSectionKind::PublicStaticAttrib)
        } else if s == "protected-type"@ {
            Some(DoxSectionKind::ProtectedType)
        } else if s == "protected-func"@ {
            Some(DoxSectionKind::ProtectedFunc)
        } else if s == "protected-attrib"@ {
            Some(DoxSectionKind::ProtectedAttrib)
        } else if s == "protected-slot"@ {
            Some(DoxSectionKind::ProtectedSlot)
        } else if s == "protected-static-func"@ {
            Some(DoxSectionKind::ProtectedStaticFunc)
        } else if s == "protected-static-attrib"@ {
            Some(DoxSectionKind::ProtectedStaticAttrib)
        } else if s == "package-type"@ {
            Some(DoxSectionKind::PackageType)
        } else if s == "package-func"@ {
            Some(DoxSectionKind::PackageFunc)
        } else if s == "package-attrib"@ {
            Some(DoxSectionKind::PackageAttrib)
        } else if s == "package-static-func"@ {
            Some(DoxSectionKind::PackageStaticFunc)
        } else if s == "package-static-attrib"@ {
            Some(DoxSectionKind::PackageStaticAttrib)
        } else if s == "private-type"@ {
            Some(DoxSectionKind::PrivateType)
        } else if s == "private-func"@ {
            Some(DoxSectionKind::PrivateFunc)
        } else if s == "private-attrib"@ {
            Some(DoxSectionKind::PrivateAttrib)
        } else if s == "private-slot"@ {
            Some(DoxSectionKind::PrivateSlot)
        } else if s == "private-static-func"@ {
            Some(DoxSectionKind::PrivateStaticFunc)
        } else if s == "private-static-attrib"@ {
            Some(DoxSectionKind::PrivateStaticAttrib)
        } else if s == "friend"@ {
            Some(DoxSectionKind::Friend)
        } else if s == "related"@ {
            Some(DoxSectionKind::Related)
        } else if s == "define"@ {
            Some(DoxSectionKind::Define)
        } else if s == "prototype"@ {
            Some(DoxSectionKind::Prototype)
        } else if s == "typedef"@ {
            Some(DoxSectionKind::Typedef)
        } else if s == "enum"@ {
            Some(DoxSectionKind::Enum)
        } else if s == "func"@ {
            Some(DoxSectionKind::Func)
        } else if s == "var"@ {
            Some(DoxSectionKind::Var)
        } else {
            None
        }
    }

    /// Reads the value from its XML text.
    pub fn from_str(s: &str) -> (r: Option<DoxSectionKind>)
        ensures
            r == DoxSectionKind::spec_from_str(s@),
    {
        if str_eq(s, "user-defined") {
            Some(DoxSectionKind::UserDefined)
        } else if str_eq(s, "public-type") {
            Some(DoxSectionKind::PublicType)
        } else if str_eq(s, "public-func") {
            Some(DoxSectionKind::PublicFunc)
        } else if str_eq(s, "public-attrib") {
            Some(DoxSectionKind::PublicAttrib)
        } else if str_eq(s, "public-slot") {
            Some(DoxSectionKind::PublicSlot)
        } else if str_eq(s, "signal") {
            Some(DoxSectionKind::Signal)
        } else if str_eq(s, "dcop-func") {
            Some(DoxSectionKind::DcopFunc)
        } else if str_eq(s, "property") {
            Some(DoxSectionKind::Property)
        } else if str_eq(s, "event") {
            Some(DoxSectionKind::Event)
        } else if str_eq(s, "public-static-func") {
            Some(DoxSectionKind::PublicStaticFunc)
        } else if str_eq(s, "public-static-attrib") {
            Some(DoxSectionKind::PublicStaticAttrib)
        } else if str_eq(s, "protected-type") {
            Some(DoxSectionKind::ProtectedType)
        } else if str_eq(s, "protected-func") {
            Some(DoxSectionKind::ProtectedFunc)
        } else if str_eq(s, "protected-attrib") {
            Some(DoxSectionKind::ProtectedAttrib)
        } else if str_eq(s, "protected-slot") {
            Some(DoxSectionKind::ProtectedSlot)
        } else if str_eq(s, "protected-static-func") {
            Some(DoxSectionKind::ProtectedStaticFunc)
        } else if str_eq(s, "protected-static-attrib") {
            Some(DoxSectionKind::ProtectedStaticAttrib)
        } else if str_eq(s, "package-type") {
            Some(DoxSectionKind::PackageType)
        } else if str_eq(s, "package-func") {
            Some(DoxSectionKind::PackageFunc)
        } else if str_eq(s, "package-attrib") {
            Some(DoxSectionKind::PackageAttrib)
        } else if str_eq(s, "package-static-func") {
            Some(DoxSectionKind::PackageStaticFunc)
        } else if str_eq(s, "package-static-attrib") {
            Some(DoxSectionKind::PackageStaticAttrib)
        } else if str_eq(s, "private-type") {
            Some(DoxSectionKind::PrivateType)
        } else if str_eq(s, "private-func") {
            Some(DoxSectionKind::PrivateFunc)
        } else if str_eq(s, "private-attrib") {
            Some(DoxSectionKind::PrivateAttrib)
        } else if str_eq(s, "private-slot") {
            Some(DoxSectionKind::PrivateSlot)
        } else if str_eq(s, "private-static-func") {
            Some(DoxSectionKind::PrivateStaticFunc)
        } else if str_eq(s, "private-static-attrib") {
            Some(DoxSectionKind::PrivateStaticAttrib)
        } else if str_eq(s, "friend") {
            Some(DoxSectionKind::Friend)
        } else if str_eq(s, "related") {
            Some(DoxSectionKind::Related)
        } else if str_eq(s, "define") {
            Some(DoxSectionKind::Define)
        } else if str_eq(s, "prototype") {
            Some(DoxSectionKind::Prototype)
        } else if str_eq(s, "typedef") {
            Some(DoxSectionKind::Typedef)
        } else if str_eq(s, "enum") {
            Some(DoxSectionKind::Enum)
        } else if str_eq(s, "func") {
            Some(DoxSectionKind::Func)
        } else if str_eq(s, "var") {
            Some(DoxSectionKind::Var)
        } else {
            None
        }
    }
}

/// The highlighting class of a stretch of a program listing.
#[derive(Debug, Clone, Copy, PartialEq, Eq, Structural)]
pub enum DoxHighlightClass {
    Comment,
    Normal,
    Preprocessor,
    Keyword,
    Keywordtype,
    Keywordflow,
    Stringliteral,
    Charliteral,
    Vhdlkeyword,
    Vhdllogic,
    Vhdlchar,
    Vhdldigit,
}

impl DoxHighlightClass {
    /// The value that the XML text `s` names, if it names one.
    pub open spec fn spec_from_str(s: Seq<char>) -> Option<DoxHighlightClass> {
        if s == "comment"@ {
            Some(DoxHighlightClass::Comment)
        } else if s == "normal"@ {
            Some(DoxHighlightClass::Normal)
        } else if s == "preprocessor"@ {
            Some(DoxHighlightClass::Preprocessor)
        } else if s == "keyword"@ {
            Some(DoxHighlightClass::Keyword)
        } else if s == "keywordtype"@ {
            Some(DoxHighlightClass::Keywordtype)
        } else if s == "keywordflow"@ {
            Some(DoxHighlightClass::Keywordflow)
        } else if s == "stringliteral"@ {
            Some(DoxHighlightClass::Stringliteral)
        } else if s == "charliteral"@ {
            Some(DoxHighlightClass::Charliteral)
        } else if s == "vhdlkeyword"@ {
            Some(DoxHighlightClass::Vhdlkeyword)
        } else if s == "vhdllogic"@ {
            Some(DoxHighlightClass::Vhdllogic)
        } else if s == "vhdlchar"@ {
            Some(DoxHighlightClass::Vhdlchar)
        } else if s == "vhdldigit"@ {
            Some(DoxHighlightClass::Vhdldigit)
        } else {
            None
        }
    }

    /// Reads the value from its XML text.
    pub fn from_str(s: &str) -> (r: Option<DoxHighlightClass>)
        ensures
            r == DoxHighlightClass::spec_from_str(s@),
    {
        if str_eq(s, "comment") {
            Some(DoxHighlightClass::Comment)
        } else if str_eq(s, "normal") {
            Some(DoxHighlightClass::Normal)
        } else if str_eq(s, "preprocessor") {
            Some(DoxHighlightClass::Preprocessor)
        } else if str_eq(s, "keyword") {
            Some(DoxHighlightClass::Keyword)
        } else if str_eq(s, "keywordtype") {
            Some(DoxHighlightClass::Keywordtype)
        } else if str_eq(s, "keywordflow") {
            Some(DoxHighlightClass::Keywordflow)
        } else if str_eq(s, "stringliteral") {
            Some(DoxHighlightClass::Stringliteral)
        } else if str_eq(s, "charliteral") {
            Some(DoxHighlightClass::Charliteral)
        } else if str_eq(s, "vhdlkeyword") {
            Some(DoxHighlightClass::Vhdlkeyword)
        } else if str_eq(s, "vhdllogic") {
            Some(DoxHighlightClass::Vhdllogic)
        } else if str_eq(s, "vhdlchar") {
            Some(DoxHighlightClass::Vhdlchar)
        } else if str_eq(s, "vhdldigit") {
            Some(DoxHighlightClass::Vhdldigit)
        } else {
            None
        }
    }
}

/// The kind of a simple section of a paragraph.
#[derive(Debug, Clone, Copy, PartialEq, Eq, Structural)]
pub enum DoxSimpleSectKind {
    See,
    Return,
    Author,
    Authors,
    Version,
    Since,
    Date,
    Note,
    Warning,
    Pre,
    Post,
    Copyright,
    Invariant,
    Remark,
    Attention,
    Par,
    Rcs,
}

impl DoxSimpleSectKind {
    /// The value that the XML text `s` names, if it names one.
    pub open spec fn spec_from_str(s: Seq<char>) -> Option<DoxSimpleSectKind> {
        if s == "see"@ {
            Some(DoxSimpleSectKind::See)
        } else if s == "return"@ {
            Some(DoxSimpleSectKind::Return)
        } else if s == "author"@ {
            Some(DoxSimpleSectKind::Author)
        } else if s == "authors"@ {
            Some(DoxSimpleSectKind::Authors)
        } else if s == "version"@ {
            Some(DoxSimpleSectKind::Version)
        } else if s == "since"@ {
            Some(DoxSimpleSectKind::Since)
        } else if s == "date"@ {
            Some(DoxSimpleSectKind::Date)
        } else if s == "note"@ {
            Some(DoxSimpleSectKind::Note)
        } else if s == "warning"@ {
            Some(DoxSimpleSectKind::Warning)
        } else if s == "pre"@ {
            Some(DoxSimpleSectKind::Pre)
        } else if s == "post"@ {
            Some(DoxSimpleSectKind::Post)
        } else if s == "copyright"@ {
            Some(DoxSimpleSectKind::Copyright)
        } else if s == "invariant"@ {
            Some(DoxSimpleSectKind::Invariant)
        } else if s == "remark"@ {
            Some(DoxSimpleSectKind::Remark)
        } else if s == "attention"@ {
            Some(DoxSimpleSectKind::Attention)
        } else if s == "par"@ {
            Some(DoxSimpleSectKind::Par)
        } else if s == "rcs"@ {
            Some(DoxSimpleSectKind::Rcs)
        } else {
            None
        }
    }

    /// Reads the value from its XML text.
    pub fn from_str(s: &str) -> (r: Option<DoxSimpleSectKind>)
        ensures
            r == DoxSimpleSectKind::spec_from_str(s@),
    {
        if str_eq(s, "see") {
            Some(DoxSimpleSectKind::See)
        } else if str_eq(s, "return") {
            Some(DoxSimpleSectKind::Return)
        } else if str_eq(s, "author") {
            Some(DoxSimpleSectKind::Author)
        } else if str_eq(s, "authors") {
            Some(DoxSimpleSectKind::Authors)
        } else if str_eq(s, "version") {
            Some(DoxSimpleSectKind::Version)
        } else if str_eq(s, "since") {
            Some(DoxSimpleSectKind::Since)
        } else if str_eq(s, "date") {
            Some(DoxSimpleSectKind::Date)
        } else if str_eq(s, "note") {
            Some(DoxSimpleSectKind::Note)
        } else if str_eq(s, "warning") {
            Some(DoxSimpleSectKind::Warning)
        } else if str_eq(s, "pre") {
            Some(DoxSimpleSectKind::Pre)
        } else if str_eq(s, "post") {
            Some(DoxSimpleSectKind::Post)
        } else if str_eq(s, "copyright") {
            Some(DoxSimpleSectKind::Copyright)
        } else if str_eq(s, "invariant") {
            Some(DoxSimpleSectKind::Invariant)
        } else if str_eq(s, "remark") {
            Some(DoxSimpleSectKind::Remark)
        } else if str_eq(s, "attention") {
            Some(DoxSimpleSectKind::Attention)
        } else if str_eq(s, "par") {
            Some(DoxSimpleSectKind::Par)
        } else if str_eq(s, "rcs") {
            Some(DoxSimpleSectKind::Rcs)
        } else {
            None
        }
    }
}

/// The output format an image is meant for.
#[derive(Debug, Clone, Copy, PartialEq, Eq, Structural)]
pub enum DoxImageKind {
    Html,
    Latex,
    Docbook,
    Rtf,
    Xml,
}

impl DoxImageKind {
    /// The value that the XML text `s` names, if it names one.
    pub open spec fn spec_from_str(s: Seq<char>) -> Option<DoxImageKind> {
        if s == "html"@ {
            Some(DoxImageKind::Html)
        } else if s == "latex"@ {
            Some(DoxImageKind::Latex)
        } else if s == "docbook"@ {
            Some(DoxImageKind::Docbook)
        } else if s == "rtf"@ {
            Some(DoxImageKind::Rtf)
        } else if s == "xml"@ {
            Some(DoxImageKind::Xml)
        } else {
            None
        }
    }

    /// Reads the value from its XML text.
    pub fn from_str(s: &str) -> (r: Option<DoxImageKind>)
        ensures
            r == DoxImageKind::spec_from_str(s@),
    {
        if str_eq(s, "html") {
            Some(DoxImageKind::Html)
        } else if str_eq(s, "latex") {
            Some(DoxImageKind::Latex)
        } else if str_eq(s, "docbook") {
            Some(DoxImageKind::Docbook)
        } else if str_eq(s, "rtf") {
            Some(DoxImageKind::Rtf)
        } else if str_eq(s, "xml") {
            Some(DoxImageKind::Xml)
        } else {
            None
        }
    }
}

/// The PlantUML engine of a diagram.
#[derive(Debug, Clone, Copy, PartialEq, Eq, Structural)]
pub enum DoxPlantumlEngine {
    Uml,
    Bpm,
    Wire,
    Dot,
    Ditaa,
    Salt,
    Math,
    Latex,
    Gantt,
    Mindmap,
    Wbs,
    Yaml,
    Creole,
    Json,
    Flow,
    Board,
    Git,
}

impl DoxPlantumlEngine {
    /// The value that the XML text `s` names, if it names one.
    pub open spec fn spec_from_str(s: Seq<char>) -> Option<DoxPlantumlEngine> {
        if s == "uml"@ {
            Some(DoxPlantumlEngine::Uml)
        } else if s == "bpm"@ {
            Some(DoxPlantumlEngine::Bpm)
        } else if s == "wire"@ {
            Some(DoxPlantumlEngine::Wire)
        } else if s == "dot"@ {
            Some(DoxPlantumlEngine::Dot)
        } else if s == "ditaa"@ {
            Some(DoxPlantumlEngine::Ditaa)
        } else if s == "salt"@ {
            Some(DoxPlantumlEngine::Salt)
        } else if s == "math"@ {
            Some(DoxPlantumlEngine::Math)
        } else if s == "latex"@ {
            Some(DoxPlantumlEngine::Latex)
        } else if s == "gantt"@ {
            Some(DoxPlantumlEngine::Gantt)
        } else if s == "mindmap"@ {
            Some(DoxPlantumlEngine::Mindmap)
        } else if s == "wbs"@ {
            Some(DoxPlantumlEngine::Wbs)
        } else if s == "yaml"@ {
            Some(DoxPlantumlEngine::Yaml)
        } else if s == "creole"@ {
            Some(DoxPlantumlEngine::Creole)
        } else if s == "json"@ {
            Some(DoxPlantumlEngine::Json)
        } else if s == "flow"@ {
            Some(DoxPlantumlEngine::Flow)
        } else if s == "board"@ {
            Some(DoxPlantumlEngine::Board)
        } else if s == "git"@ {
            Some(DoxPlantumlEngine::Git)
        } else {
            None
        }
    }

    /// Reads the value from its XML text.
    pub fn from_str(s: &str) -> (r: Option<DoxPlantumlEngine>)
        ensures
            r == DoxPlantumlEngine::spec_from_str(s@),
    {
        if str_eq(s, "uml") {
            Some(DoxPlantumlEngine::Uml)
        } else if str_eq(s, "bpm") {
            Some(DoxPlantumlEngine::Bpm)
        } else if str_eq(s, "wire") {
            Some(DoxPlantumlEngine::Wire)
        } else if str_eq(s, "dot") {
            Some(DoxPlantumlEngine::Dot)
        } else if str_eq(s, "ditaa") {
            Some(DoxPlantumlEngine::Ditaa)
        } else if str_eq(s, "salt") {
            Some(DoxPlantumlEngine::Salt)
        } else if str_eq(s, "math") {
            Some(DoxPlantumlEngine::Math)
        } else if str_eq(s, "latex") {
            Some(DoxPlantumlEngine::Latex)
        } else if str_eq(s, "gantt") {
            Some(DoxPlantumlEngine::Gantt)
        } else if str_eq(s, "mindmap") {
            Some(DoxPlantumlEngine::Mindmap)
        } else if str_eq(s, "wbs") {
            Some(DoxPlantumlEngine::Wbs)
        } else if str_eq(s, "yaml") {
            Some(DoxPlantumlEngine::Yaml)
        } else if str_eq(s, "creole") {
            Some(DoxPlantumlEngine::Creole)
        } else if str_eq(s, "json") {
            Some(DoxPlantumlEngine::Json)
        } else if str_eq(s, "flow") {
            Some(DoxPlantumlEngine::Flow)
        } else if str_eq(s, "board") {
            Some(DoxPlantumlEngine::Board)
        } else if str_eq(s, "git") {
            Some(DoxPlantumlEngine::Git)
        } else {
            None
        }
    }
}

/// The kind of a parameter list.
#[derive(Debug, Clone, Copy, PartialEq, Eq, Structural)]
pub enum DoxParamListKind {
    Param,
    Retval,
    Exception,
    Templateparam,
}

impl DoxParamListKind {
    /// The value that the XML text `s` names, if it names one.
    pub open spec fn spec_from_str(s: Seq<char>) -> Option<DoxParamListKind> {
        if s == "param"@ {
            Some(DoxParamListKind::Param)
        } else if s == "retval"@ {
            Some(DoxParamListKind::Retval)
        } else if s == "exception"@ {
            Some(DoxParamListKind::Exception)
        } else if s == "templateparam"@ {
            Some(DoxParamListKind::Templateparam)
        } else {
            None
        }
    }

    /// Reads the value from its XML text.
    pub fn from_str(s: &str) -> (r: Option<DoxParamListKind>)
        ensures
            r == DoxParamListKind::spec_from_str(s@),
    {
        if str_eq(s, "param") {
            Some(DoxParamListKind::Param)
        } else if str_eq(s, "retval") {
            Some(DoxParamListKind::Retval)
        } else if str_eq(s, "exception") {
            Some(DoxParamListKind::Exception)
        } else if str_eq(s, "templateparam") {
            Some(DoxParamListKind::Templateparam)
        } else {
            None
        }
    }
}

/// The direction of a documented parameter.
#[derive(Debug, Clone, Copy, PartialEq, Eq, Structural)]
pub enum DoxParamDir {
    In,
    Out,
    Inout,
}

impl DoxParamDir {
    /// The value that the XML text `s` names, if it names one.
    pub open spec fn spec_from_str(s: Seq<char>) -> Option<DoxParamDir> {
        if s == "in"@ {
            Some(DoxParamDir::In)
        } else if s == "out"@ {
            Some(DoxParamDir::Out)
        } else if s == "inout"@ {
            Some(DoxParamDir::Inout)
        } else {
            None
        }
    }

    /// Reads the value from its XML text.
    pub fn from_str(s: &str) -> (r: Option<DoxParamDir>)
        ensures
            r == DoxParamDir::spec_from_str(s@),
    {
        if str_eq(s, "in") {
            Some(DoxParamDir::In)
        } else if str_eq(s, "out") {
            Some(DoxParamDir::Out)
        } else if str_eq(s, "inout") {
            Some(DoxParamDir::Inout)
        } else {
            None
        }
    }
}

/// The accessor of an Objective-C property.
#[derive(Debug, Clone, Copy, PartialEq, Eq, Structural)]
pub enum DoxAccessor {
    Retain,
    Copy,
    Assign,
    Weak,
    Strong,
    Unretained,
}

impl DoxAccessor {
    /// The value that the XML text `s` names, if it names one.
    pub open spec fn spec_from_str(s: Seq<char>) -> Option<DoxAccessor> {
        if s == "retain"@ {
            Some(DoxAccessor::Retain)
        } else if s == "copy"@ {
            Some(DoxAccessor::Copy)
        } else if s == "assign"@ {
            Some(DoxAccessor::Assign)
        } else if s == "weak"@ {
            Some(DoxAccessor::Weak)
        } else if s == "strong"@ {
            Some(DoxAccessor::Strong)
        } else if s == "unretained"@ {
            Some(DoxAccessor::Unretained)
        } else {
            None
        }
    }

    /// Reads the value from its XML text.
    pub fn from_str(s: &str) -> (r: Option<DoxAccessor>)
        ensures
            r == DoxAccessor::spec_from_str(s@),
    {
        if str_eq(s, "retain") {
            Some(DoxAccessor::Retain)
        } else if str_eq(s, "copy") {
            Some(DoxAccessor::Copy)
        } else if str_eq(s, "assign") {
            Some(DoxAccessor::Assign)
        } else if str_eq(s, "weak") {
            Some(DoxAccessor::Weak)
        } else if str_eq(s, "strong") {
            Some(DoxAccessor::Strong)
        } else if str_eq(s, "unretained") {
            Some(DoxAccessor::Unretained)
        } else {
            None
        }
    }
}

/// The horizontal alignment of a table cell.
#[derive(Debug, Clone, Copy, PartialEq, Eq, Structural)]
pub enum DoxAlign {
    Left,
    Right,
    Center,
}

impl DoxAlign {
    /// The value that the XML text `s` names, if it names one.
    pub open spec fn spec_from_str(s: Seq<char>) -> Option<DoxAlign> {
        if s == "left"@ {
            Some(DoxAlign::Left)
        } else if s == "right"@ {
            Some(DoxAlign::Right)
        } else if s == "center"@ {
            Some(DoxAlign::Center)
        } else {
            None
        }
    }

    /// Reads the value from its XML text.
    pub fn from_str(s: &str) -> (r: Option<DoxAlign>)
        ensures
            r == DoxAlign::spec_from_str(s@),
    {
        if str_eq(s, "left") {
            Some(DoxAlign::Left)
        } else if str_eq(s, "right") {
            Some(DoxAlign::Right)
        } else if str_eq(s, "center") {
            Some(DoxAlign::Center)
        } else {
            None
        }
    }
}

/// The vertical alignment of a table cell.
#[derive(Debug, Clone, Copy, PartialEq, Eq, Structural)]
pub enum DoxVerticalAlign {
    Bottom,
    Top,
    Middle,
}

impl DoxVerticalAlign {
    /// The value that the XML text `s` names, if it names one.
    pub open spec fn spec_from_str(s: Seq<char>) -> Option<DoxVerticalAlign> {
        if s == "bottom"@ {
            Some(DoxVerticalAlign::Bottom)
        } else if s == "top"@ {
            Some(DoxVerticalAlign::Top)
        } else if s == "middle"@ {
            Some(DoxVerticalAlign::Middle)
        } else {
            None
        }
    }

    /// Reads the value from its XML text.
    pub fn from_str(s: &str) -> (r: Option<DoxVerticalAlign>)
        ensures
            r == DoxVerticalAlign::spec_from_str(s@),
    {
        if str_eq(s, "bottom") {
            Some(DoxVerticalAlign::Bottom)
        } else if str_eq(s, "top") {
            Some(DoxVerticalAlign::Top)
        } else if str_eq(s, "middle") {
            Some(DoxVerticalAlign::Middle)
        } else {
            None
        }
    }
}

/// A yes or no attribute.
#[derive(Debug, Clone, Copy, PartialEq, Eq, Structural)]
pub enum DoxBool {
    Yes,
    No,
}

impl DoxBool {
    /// The value that the XML text `s` names, if it names one.
    pub open spec fn spec_from_str(s: Seq<char>) -> Option<DoxBool> {
        if s == "yes"@ {
            Some(DoxBool::Yes)
        } else if s == "no"@ {
            Some(DoxBool::No)
        } else {
            None
        }
    }

    /// Reads the value from its XML text.
    pub fn from_str(s: &str) -> (r: Option<DoxBool>)
        ensures
            r == DoxBool::spec_from_str(s@),
    {
        if str_eq(s, "yes") {
            Some(DoxBool::Yes)
        } else if str_eq(s, "no") {
            Some(DoxBool::No)
        } else {
            None
        }
    }
}
// ---------------------------------------------------------------------------
// Elements of a compound file

/// A graph of a compound's relations (inheritance, collaboration, includes).
#[derive(Debug, PartialEq, Eq)]
pub struct GraphType {
    pub node: Vec<NodeType>,
}

/// A node of a graph.
#[derive(Debug, PartialEq, Eq)]
pub struct NodeType {
    pub id: String,
    pub label: String,
    pub link: Option<LinkType>,
    pub childnode: Vec<ChildnodeType>,
}

/// An edge of a graph to the node with id `refid`.
#[derive(Debug, PartialEq, Eq)]
pub struct ChildnodeType {
    pub refid: String,
    pub relation: DoxGraphRelation,
}

/// The documentation that a graph node links to.
#[derive(Debug, PartialEq, Eq)]
pub struct LinkType {
    pub refid: String,
    pub external: Option<String>,
}

/// A reference to another compound (`innerclass`, `innergroup`, ...).
#[derive(Debug, PartialEq, Eq)]
pub struct RefType {
    pub refid: String,
    pub content: String,
}

#[derive(Debug, PartialEq, Eq)]
/// A reference inside linked text.
pub struct RefTextType {
    pub refid: String,
    pub content: String,
}

#[derive(Debug, PartialEq, Eq)]
/// One entry of linked text: a reference or plain text.
pub enum LinkedTextTypeItem {
    Ref(RefTextType),
    Text(String),
}

#[derive(Debug, PartialEq, Eq)]
/// Text interspersed with references (types, initializers).
pub struct LinkedTextType {
    pub content: Vec<LinkedTextTypeItem>,
}

/// One entry of a documented parameter's type.
pub type DocParamTypeItem = LinkedTextTypeItem;

/// One entry of a documented parameter's name.
pub type DocParamNameItem = LinkedTextTypeItem;

#[derive(Debug, PartialEq, Eq)]
/// The type of a documented parameter.
pub struct DocParamType {
    pub content: Vec<DocParamTypeItem>,
}

#[derive(Debug, PartialEq, Eq)]
/// The name of a documented parameter.
pub struct DocParamName {
    pub content: Vec<DocParamNameItem>,
}

#[derive(Debug, PartialEq, Eq)]
/// The types and names that one parameter description covers.
pub struct DocParamNameList {
    pub parameter_type: Vec<DocParamType>,
    pub parameter_name: Vec<DocParamName>,
}

#[derive(Debug, PartialEq, Eq)]
/// One documented parameter (or group of parameters) with its description.
pub struct DocParamListItem {
    pub parameter_name_list: Vec<DocParamNameList>,
    pub parameter_description: DescriptionType,
}

#[derive(Debug, PartialEq, Eq)]
/// A list of documented parameters.
pub struct DocParamListType {
    pub parameter_item: Vec<DocParamListItem>,
}

#[derive(Debug, PartialEq, Eq)]
/// An element with no content, such as a line break.
pub struct DocEmptyType {}

#[derive(Debug, PartialEq, Eq)]
/// A block of raw HTML.
pub struct DocHtmlOnlyType {
    pub content: String,
}

#[derive(Debug, PartialEq, Eq)]
/// One entry of marked up text.
pub enum DocMarkupTypeItem {
    DocCmdGroup(DocCmdGroup),
    Text(String),
}

#[derive(Debug, PartialEq, Eq)]
/// Marked up text (bold, emphasis, preformatted, ...).
pub struct DocMarkupType {
    pub content: Vec<DocMarkupTypeItem>,
}

#[derive(Debug, PartialEq, Eq)]
/// One entry of the text of a reference in documentation.
pub enum DocRefTextTypeItem {
    DocTitleCmdGroup(DocTitleCmdGroup),
    Text(String),
}

#[derive(Debug, PartialEq, Eq)]
/// A reference in documentation, with its text.
pub struct DocRefTextType {
    pub refid: String,
    pub content: Vec<DocRefTextTypeItem>,
}

#[derive(Debug, PartialEq, Eq)]
/// One entry of the text of a link.
pub enum DocURLLinkItem {
    DocTitleCmdGroup(DocTitleCmdGroup),
    Text(String),
}

#[derive(Debug, PartialEq, Eq)]
/// A link to a URL, with its text.
pub struct DocURLLink {
    pub url: String,
    pub content: Vec<DocURLLinkItem>,
}

#[derive(Debug, PartialEq, Eq)]
/// Inline elements of documentation.
pub enum DocTitleCmdGroup {
    Ulink(DocURLLink),
    Bold(DocMarkupType),
    S(DocMarkupType),
    Strike(DocMarkupType),
    Underline(DocMarkupType),
    Emphasis(DocMarkupType),
    Computeroutput(DocMarkupType),
    Subscript(DocMarkupType),
    Superscript(DocMarkupType),
    Center(DocMarkupType),
    Small(DocMarkupType),
    Cite(DocMarkupType),
    Del(DocMarkupType),
    Ins(DocMarkupType),
    Summary(DocMarkupType),
    Htmlonly(DocHtmlOnlyType),
    Ref(DocRefTextType),
    Linebreak(DocEmptyType),
    Nonbreakablespace(DocEmptyType),
    Ndash(DocEmptyType),
    Mdash(DocEmptyType),
    Lsquo(DocEmptyType),
    Rsquo(DocEmptyType),
    /// An element, by its name, that is read over and renders as nothing
    /// (anchors, headings, images, formulas, other special characters, ...).
    Unhandled(String),
}

#[derive(Debug, PartialEq, Eq)]
/// Inline and block elements of documentation.
pub enum DocCmdGroup {
    DocTitleCmdGroup(DocTitleCmdGroup),
    Preformatted(DocMarkupType),
    ProgramListing(ListingType),
    Verbatim(String),
    OrderedList(DocListType),
    ItemizedList(DocListType),
    Simplesect(DocSimpleSectType),
    Table(DocTableType),
    ParameterList(DocParamListType),
    Xrefsect(DocXRefSectType),
}

#[derive(Debug, PartialEq, Eq)]
/// One entry of a paragraph.
pub enum DocParaTypeItem {
    DocCmdGroup(DocCmdGroup),
    Text(String),
}

#[derive(Debug, PartialEq, Eq)]
/// A paragraph of documentation.
pub struct DocParaType {
    pub content: Vec<DocParaTypeItem>,
}

#[derive(Debug, PartialEq, Eq)]
/// A simple section (note, warning, return value, ...): one or more paragraphs.
pub struct DocSimpleSectType {
    pub kind: DoxSimpleSectKind,
    pub para: Vec<DocParaType>,
}

#[derive(Debug, PartialEq, Eq)]
/// An ordered or itemized list: one or more items.
pub struct DocListType {
    pub listitem: Vec<DocListItemType>,
}

#[derive(Debug, PartialEq, Eq)]
/// An item of a list.
pub struct DocListItemType {
    pub para: Vec<DocParaType>,
}

#[derive(Debug, PartialEq, Eq)]
/// A table.
pub struct DocTableType {
    pub rows: i32,
    pub cols: i32,
    pub row: Vec<DocRowType>,
}

#[derive(Debug, PartialEq, Eq)]
/// A row of a table.
pub struct DocRowType {
    pub entry: Vec<DocEntryType>,
}

#[derive(Debug, PartialEq, Eq)]
/// A cell of a table.
pub struct DocEntryType {
    pub thead: DoxBool,
    pub para: Vec<DocParaType>,
}

#[derive(Debug, PartialEq, Eq)]
/// A cross-referenced section (todo, bug, deprecated, ...).
pub struct DocXRefSectType {
    pub id: String,
    pub xreftitle: String,
    pub xrefdescription: DescriptionType,
}

#[derive(Debug, PartialEq, Eq)]
/// A program listing: its lines.
pub struct ListingType {
    pub codeline: Vec<CodelineType>,
}

#[derive(Debug, PartialEq, Eq)]
/// A line of a program listing.
pub struct CodelineType {
    pub highlight: Vec<HighlightType>,
}

#[derive(Debug, PartialEq, Eq)]
/// One entry of a highlighted stretch of code.
pub enum HighlightTypeItem {
    Sp(SpType),
    Ref(RefTextType),
    Text(String),
}

#[derive(Debug, PartialEq, Eq)]
/// A highlighted stretch of code.
pub struct HighlightType {
    pub content: Vec<HighlightTypeItem>,
}

#[derive(Debug, PartialEq, Eq)]
/// A space in a program listing.
pub struct SpType {}

#[derive(Debug, PartialEq, Eq)]
/// One entry of a description.
pub enum DescriptionTypeItem {
    Para(DocParaType),
    Text(String),
}

#[derive(Debug, PartialEq, Eq)]
/// A brief or detailed description.
pub struct DescriptionType {
    pub content: Vec<DescriptionTypeItem>,
}

#[derive(Debug, PartialEq, Eq)]
/// A parameter of a function or define.
pub struct ParamType {
    pub type_: Option<LinkedTextType>,
    pub declname: Option<String>,
    pub defname: Option<String>,
}

#[derive(Debug, PartialEq, Eq)]
/// A value of an enum.
pub struct EnumValueType {
    pub id: String,
    pub name: String,
    pub initializer: Option<LinkedTextType>,
    pub brief_description: Option<DescriptionType>,
    pub detailed_description: Option<DescriptionType>,
}

#[derive(Debug, PartialEq, Eq)]
/// A member of a compound: function, variable, enum, typedef, define, ...
pub struct MemberDefType {
    pub kind: DoxMemberKind,
    pub id: String,
    pub static_: DoxBool,
    pub const_: Option<DoxBool>,
    pub inline: Option<DoxBool>,
    pub type_: Option<LinkedTextType>,
    pub name: String,
    pub qualifiedname: Option<String>,
    pub argsstring: Option<String>,
    pub param: Vec<ParamType>,
    pub enumvalue: Vec<EnumValueType>,
    pub brief_description: Option<DescriptionType>,
    pub detailed_description: Option<DescriptionType>,
}

#[derive(Debug, PartialEq, Eq)]
/// A section of a compound: one or more members.
pub struct SectionDefType {
    pub kind: DoxSectionKind,
    pub member_defs: Vec<MemberDefType>,
}

#[derive(Debug, PartialEq, Eq)]
/// The definition of a compound.
pub struct CompoundDefType {
    pub id: String,
    pub kind: DoxCompoundKind,
    pub language: Option<DoxLanguage>,
    pub compound_name: String,
    pub brief_description: Option<DescriptionType>,
    pub detailed_description: Option<DescriptionType>,
    pub innerclass: Vec<RefType>,
    pub innergroup: Vec<RefType>,
    pub section_defs: Vec<SectionDefType>,
}

#[derive(Debug, PartialEq, Eq)]
/// The contents of a compound file.
pub struct DoxygenType {
    pub compound_def: Option<CompoundDefType>,
}
// ---------------------------------------------------------------------------
// The mathematical model of the elements: the same shapes over sequences.

pub struct SpecRefType {
    pub refid: Seq<char>,
    pub content: Seq<char>,
}

pub enum SpecLinkedTextItem {
    Ref(SpecRefType),
    Text(Seq<char>),
}

pub struct SpecParamNameList {
    pub parameter_type: Seq<Seq<SpecLinkedTextItem>>,
    pub parameter_name: Seq<Seq<SpecLinkedTextItem>>,
}

pub struct SpecParamListItem {
    pub parameter_name_list: Seq<SpecParamNameList>,
    pub parameter_description: Seq<SpecDescriptionItem>,
}

pub enum SpecMarkupItem {
    DocCmdGroup(SpecCmd),
    Text(Seq<char>),
}

pub enum SpecTitleItem {
    DocTitleCmdGroup(SpecTitleCmd),
    Text(Seq<char>),
}

/// The inline elements, with the markup kinds told apart by a tag.
pub enum SpecTitleCmd {
    Ulink(Seq<char>, Seq<SpecTitleItem>),
    Markup(MarkupKind, Seq<SpecMarkupItem>),
    Htmlonly(Seq<char>),
    Ref(Seq<char>, Seq<SpecTitleItem>),
    Linebreak,
    Nonbreakablespace,
    Ndash,
    Mdash,
    Lsquo,
    Rsquo,
    Unhandled(Seq<char>),
}

/// The kinds of marked up inline text.
#[derive(PartialEq, Eq, Structural, Clone, Copy)]
pub enum MarkupKind {
    Bold,
    S,
    Strike,
    Underline,
    Emphasis,
    Computeroutput,
    Subscript,
    Superscript,
    Center,
    Small,
    Cite,
    Del,
    Ins,
    Summary,
}

pub enum SpecCmd {
    Title(SpecTitleCmd),
    Preformatted(Seq<SpecMarkupItem>),
    ProgramListing(Seq<Seq<Seq<SpecHighlightItem>>>),
    Verbatim(Seq<char>),
    OrderedList(Seq<Seq<Seq<SpecParaItem>>>),
    ItemizedList(Seq<Seq<Seq<SpecParaItem>>>),
    Simplesect(DoxSimpleSectKind, Seq<Seq<SpecParaItem>>),
    Table(SpecTable),
    ParameterList(Seq<SpecParamListItem>),
    Xrefsect(SpecXRefSect),
}

pub enum SpecParaItem {
    DocCmdGroup(SpecCmd),
    Text(Seq<char>),
}

pub struct SpecTable {
    pub rows: i32,
    pub cols: i32,
    pub row: Seq<Seq<SpecEntry>>,
}

pub struct SpecEntry {
    pub thead: DoxBool,
    pub para: Seq<Seq<SpecParaItem>>,
}

pub struct SpecXRefSect {
    pub id: Seq<char>,
    pub xreftitle: Seq<char>,
    pub xrefdescription: Seq<SpecDescriptionItem>,
}

pub enum SpecHighlightItem {
    Sp,
    Ref(SpecRefType),
    Text(Seq<char>),
}

pub enum SpecDescriptionItem {
    Para(Seq<SpecParaItem>),
    Text(Seq<char>),
}

pub struct SpecParam {
    pub type_: Option<Seq<SpecLinkedTextItem>>,
    pub declname: Option<Seq<char>>,
    pub defname: Option<Seq<char>>,
}

pub struct SpecEnumValue {
    pub id: Seq<char>,
    pub name: Seq<char>,
    pub initializer: Option<Seq<SpecLinkedTextItem>>,
    pub brief_description: Option<Seq<SpecDescriptionItem>>,
    pub detailed_description: Option<Seq<SpecDescriptionItem>>,
}

pub struct SpecMemberDef {
    pub kind: DoxMemberKind,
    pub id: Seq<char>,
    pub static_: DoxBool,
    pub const_: Option<DoxBool>,
    pub inline: Option<DoxBool>,
    pub type_: Option<Seq<SpecLinkedTextItem>>,
    pub name: Seq<char>,
    pub qualifiedname: Option<Seq<char>>,
    pub argsstring: Option<Seq<char>>,
    pub param: Seq<SpecParam>,
    pub enumvalue: Seq<SpecEnumValue>,
    pub brief_description: Option<Seq<SpecDescriptionItem>>,
    pub detailed_description: Option<Seq<SpecDescriptionItem>>,
}

pub struct SpecSectionDef {
    pub kind: DoxSectionKind,
    pub member_defs: Seq<SpecMemberDef>,
}

pub struct SpecCompoundDef {
    pub id: Seq<char>,
    pub kind: DoxCompoundKind,
    pub language: Option<DoxLanguage>,
    pub compound_name: Seq<char>,
    pub brief_description: Option<Seq<SpecDescriptionItem>>,
    pub detailed_description: Option<Seq<SpecDescriptionItem>>,
    pub innerclass: Seq<SpecRefType>,
    pub innergroup: Seq<SpecRefType>,
    pub section_defs: Seq<SpecSectionDef>,
}

pub struct SpecDoxygen {
    pub compound_def: Option<SpecCompoundDef>,
}

// Views of the leaves and of the lists of leaves.

pub open spec fn view_ref(r: RefTextType) -> SpecRefType {
    SpecRefType { refid: r.refid@, content: r.content@ }
}

pub open spec fn view_ref_type(r: RefType) -> SpecRefType {
    SpecRefType { refid: r.refid@, content: r.content@ }
}

pub open spec fn view_refs(s: Seq<RefType>) -> Seq<SpecRefType> {
    s.map_values(|r: RefType| view_ref_type(r))
}

pub open spec fn view_linked_item(i: LinkedTextTypeItem) -> SpecLinkedTextItem {
    match i {
        LinkedTextTypeItem::Ref(r) => SpecLinkedTextItem::Ref(view_ref(r)),
        LinkedTextTypeItem::Text(t) => SpecLinkedTextItem::Text(t@),
    }
}

pub open spec fn view_linked_items(s: Seq<LinkedTextTypeItem>) -> Seq<SpecLinkedTextItem> {
    s.map_values(|i: LinkedTextTypeItem| view_linked_item(i))
}

pub open spec fn view_linked(l: LinkedTextType) -> Seq<SpecLinkedTextItem> {
    view_linked_items(l.content@)
}

pub open spec fn view_opt_linked(l: Option<LinkedTextType>) -> Option<Seq<SpecLinkedTextItem>> {
    match l {
        Some(l) => Some(view_linked(l)),
        None => None,
    }
}

pub open spec fn view_param_types(s: Seq<DocParamType>) -> Seq<Seq<SpecLinkedTextItem>> {
    s.map_values(|t: DocParamType| view_linked_items(t.content@))
}

pub open spec fn view_param_names(s: Seq<DocParamName>) -> Seq<Seq<SpecLinkedTextItem>> {
    s.map_values(|t: DocParamName| view_linked_items(t.content@))
}

pub open spec fn view_name_list(n: DocParamNameList) -> SpecParamNameList {
    SpecParamNameList {
        parameter_type: view_param_types(n.parameter_type@),
        parameter_name: view_param_names(n.parameter_name@),
    }
}

pub open spec fn view_name_lists(s: Seq<DocParamNameList>) -> Seq<SpecParamNameList> {
    s.map_values(|n: DocParamNameList| view_name_list(n))
}

pub open spec fn view_highlight_item(i: HighlightTypeItem) -> SpecHighlightItem {
    match i {
        HighlightTypeItem::Sp(_) => SpecHighlightItem::Sp,
        HighlightTypeItem::Ref(r) => SpecHighlightItem::Ref(view_ref(r)),
        HighlightTypeItem::Text(t) => SpecHighlightItem::Text(t@),
    }
}

pub open spec fn view_highlight_items(s: Seq<HighlightTypeItem>) -> Seq<SpecHighlightItem> {
    s.map_values(|i: HighlightTypeItem| view_highlight_item(i))
}

pub open spec fn view_highlights(s: Seq<HighlightType>) -> Seq<Seq<SpecHighlightItem>> {
    s.map_values(|h: HighlightType| view_highlight_items(h.content@))
}

pub open spec fn view_codelines(s: Seq<CodelineType>) -> Seq<Seq<Seq<SpecHighlightItem>>> {
    s.map_values(|c: CodelineType| view_highlights(c.highlight@))
}

// Views of the documentation blocks, which nest in each other.

pub open spec fn view_description(d: DescriptionType) -> Seq<SpecDescriptionItem>
    decreases d,
{
    view_description_items(d.content@)
}

pub open spec fn view_description_items(s: Seq<DescriptionTypeItem>) -> Seq<SpecDescriptionItem>
    decreases s,
{
    if s.len() == 0 {
        Seq::empty()
    } else {
        view_description_items(s.drop_last()).push(view_description_item(s.last()))
    }
}

pub open spec fn view_description_item(i: DescriptionTypeItem) -> SpecDescriptionItem
    decreases i,
{
    match i {
        DescriptionTypeItem::Para(p) => SpecDescriptionItem::Para(view_para(p)),
        DescriptionTypeItem::Text(t) => SpecDescriptionItem::Text(t@),
    }
}

pub open spec fn view_para(p: DocParaType) -> Seq<SpecParaItem>
    decreases p,
{
    view_para_items(p.content@)
}

pub open spec fn view_paras(s: Seq<DocParaType>) -> Seq<Seq<SpecParaItem>>
    decreases s,
{
    if s.len() == 0 {
        Seq::empty()
    } else {
        view_paras(s.drop_last()).push(view_para(s.last()))
    }
}

pub open spec fn view_para_items(s: Seq<DocParaTypeItem>) -> Seq<SpecParaItem>
    decreases s,
{
    if s.len() == 0 {
        Seq::empty()
    } else {
        view_para_items(s.drop_last()).push(view_para_item(s.last()))
    }
}

pub open spec fn view_para_item(i: DocParaTypeItem) -> SpecParaItem
    decreases i,
{
    match i {
        DocParaTypeItem::DocCmdGroup(c) => SpecParaItem::DocCmdGroup(view_cmd(c)),
        DocParaTypeItem::Text(t) => SpecParaItem::Text(t@),
    }
}

pub open spec fn view_markup(m: DocMarkupType) -> Seq<SpecMarkupItem>
    decreases m,
{
    view_markup_items(m.content@)
}

pub open spec fn view_markup_items(s: Seq<DocMarkupTypeItem>) -> Seq<SpecMarkupItem>
    decreases s,
{
    if s.len() == 0 {
        Seq::empty()
    } else {
        view_markup_items(s.drop_last()).push(view_markup_item(s.last()))
    }
}

pub open spec fn view_markup_item(i: DocMarkupTypeItem) -> SpecMarkupItem
    decreases i,
{
    match i {
        DocMarkupTypeItem::DocCmdGroup(c) => SpecMarkupItem::DocCmdGroup(view_cmd(c)),
        DocMarkupTypeItem::Text(t) => SpecMarkupItem::Text(t@),
    }
}

pub open spec fn view_ref_items(s: Seq<DocRefTextTypeItem>) -> Seq<SpecTitleItem>
    decreases s,
{
    if s.len() == 0 {
        Seq::empty()
    } else {
        view_ref_items(s.drop_last()).push(view_ref_item(s.last()))
    }
}

pub open spec fn view_ref_item(i: DocRefTextTypeItem) -> SpecTitleItem
    decreases i,
{
    match i {
        DocRefTextTypeItem::DocTitleCmdGroup(c) => SpecTitleItem::DocTitleCmdGroup(view_title_cmd(c)),
        DocRefTextTypeItem::Text(t) => SpecTitleItem::Text(t@),
    }
}

pub open spec fn view_url_items(s: Seq<DocURLLinkItem>) -> Seq<SpecTitleItem>
    decreases s,
{
    if s.len() == 0 {
        Seq::empty()
    } else {
        view_url_items(s.drop_last()).push(view_url_item(s.last()))
    }
}

pub open spec fn view_url_item(i: DocURLLinkItem) -> SpecTitleItem
    decreases i,
{
    match i {
        DocURLLinkItem::DocTitleCmdGroup(c) => SpecTitleItem::DocTitleCmdGroup(view_title_cmd(c)),
        DocURLLinkItem::Text(t) => SpecTitleItem::Text(t@),
    }
}

pub open spec fn view_title_cmd(c: DocTitleCmdGroup) -> SpecTitleCmd
    decreases c,
{
    match c {
        DocTitleCmdGroup::Ulink(l) => SpecTitleCmd::Ulink(l.url@, view_url_items(l.content@)),
        DocTitleCmdGroup::Bold(m) => SpecTitleCmd::Markup(MarkupKind::Bold, view_markup(m)),
        DocTitleCmdGroup::S(m) => SpecTitleCmd::Markup(MarkupKind::S, view_markup(m)),
        DocTitleCmdGroup::Strike(m) => SpecTitleCmd::Markup(MarkupKind::Strike, view_markup(m)),
        DocTitleCmdGroup::Underline(m) => SpecTitleCmd::Markup(MarkupKind::Underline, view_markup(m)),
        DocTitleCmdGroup::Emphasis(m) => SpecTitleCmd::Markup(MarkupKind::Emphasis, view_markup(m)),
        DocTitleCmdGroup::Computeroutput(m) => SpecTitleCmd::Markup(MarkupKind::Computeroutput, view_markup(m)),
        DocTitleCmdGroup::Subscript(m) => SpecTitleCmd::Markup(MarkupKind::Subscript, view_markup(m)),
        DocTitleCmdGroup::Superscript(m) => SpecTitleCmd::Markup(MarkupKind::Superscript, view_markup(m)),
        DocTitleCmdGroup::Center(m) => SpecTitleCmd::Markup(MarkupKind::Center, view_markup(m)),
        DocTitleCmdGroup::Small(m) => SpecTitleCmd::Markup(MarkupKind::Small, view_markup(m)),
        DocTitleCmdGroup::Cite(m) => SpecTitleCmd::Markup(MarkupKind::Cite, view_markup(m)),
        DocTitleCmdGroup::Del(m) => SpecTitleCmd::Markup(MarkupKind::Del, view_markup(m)),
        DocTitleCmdGroup::Ins(m) => SpecTitleCmd::Markup(MarkupKind::Ins, view_markup(m)),
        DocTitleCmdGroup::Summary(m) => SpecTitleCmd::Markup(MarkupKind::Summary, view_markup(m)),
        DocTitleCmdGroup::Htmlonly(h) => SpecTitleCmd::Htmlonly(h.content@),
        DocTitleCmdGroup::Ref(r) => SpecTitleCmd::Ref(r.refid@, view_ref_items(r.content@)),
        DocTitleCmdGroup::Linebreak(_) => SpecTitleCmd::Linebreak,
        DocTitleCmdGroup::Nonbreakablespace(_) => SpecTitleCmd::Nonbreakablespace,
        DocTitleCmdGroup::Ndash(_) => SpecTitleCmd::Ndash,
        DocTitleCmdGroup::Mdash(_) => SpecTitleCmd::Mdash,
        DocTitleCmdGroup::Lsquo(_) => SpecTitleCmd::Lsquo,
        DocTitleCmdGroup::Rsquo(_) => SpecTitleCmd::Rsquo,
        DocTitleCmdGroup::Unhandled(name) => SpecTitleCmd::Unhandled(name@),
    }
}

pub open spec fn view_cmd(c: DocCmdGroup) -> SpecCmd
    decreases c,
{
    match c {
        DocCmdGroup::DocTitleCmdGroup(t) => SpecCmd::Title(view_title_cmd(t)),
        DocCmdGroup::Preformatted(m) => SpecCmd::Preformatted(view_markup(m)),
        DocCmdGroup::ProgramListing(l) => SpecCmd::ProgramListing(view_codelines(l.codeline@)),
        DocCmdGroup::Verbatim(t) => SpecCmd::Verbatim(t@),
        DocCmdGroup::OrderedList(l) => SpecCmd::OrderedList(view_list_items(l.listitem@)),
        DocCmdGroup::ItemizedList(l) => SpecCmd::ItemizedList(view_list_items(l.listitem@)),
        DocCmdGroup::Simplesect(s) => SpecCmd::Simplesect(s.kind, view_paras(s.para@)),
        DocCmdGroup::Table(t) => SpecCmd::Table(view_table(t)),
        DocCmdGroup::ParameterList(l) => SpecCmd::ParameterList(view_param_items(l.parameter_item@)),
        DocCmdGroup::Xrefsect(x) => SpecCmd::Xrefsect(SpecXRefSect {
            id: x.id@,
            xreftitle: x.xreftitle@,
            xrefdescription: view_description(x.xrefdescription),
        }),
    }
}

pub open spec fn view_list_items(s: Seq<DocListItemType>) -> Seq<Seq<Seq<SpecParaItem>>>
    decreases s,
{
    if s.len() == 0 {
        Seq::empty()
    } else {
        view_list_items(s.drop_last()).push(view_list_item(s.last()))
    }
}

pub open spec fn view_list_item(i: DocListItemType) -> Seq<Seq<SpecParaItem>>
    decreases i,
{
    view_paras(i.para@)
}

pub open spec fn view_table(t: DocTableType) -> SpecTable
    decreases t,
{
    SpecTable { rows: t.rows, cols: t.cols, row: view_rows(t.row@) }
}

pub open spec fn view_rows(s: Seq<DocRowType>) -> Seq<Seq<SpecEntry>>
    decreases s,
{
    if s.len() == 0 {
        Seq::empty()
    } else {
        view_rows(s.drop_last()).push(view_row(s.last()))
    }
}

pub open spec fn view_row(r: DocRowType) -> Seq<SpecEntry>
    decreases r,
{
    view_entries(r.entry@)
}

pub open spec fn view_entries(s: Seq<DocEntryType>) -> Seq<SpecEntry>
    decreases s,
{
    if s.len() == 0 {
        Seq::empty()
    } else {
        view_entries(s.drop_last()).push(view_entry(s.last()))
    }
}

pub open spec fn view_entry(e: DocEntryType) -> SpecEntry
    decreases e,
{
    SpecEntry { thead: e.thead, para: view_paras(e.para@) }
}

pub open spec fn view_param_items(s: Seq<DocParamListItem>) -> Seq<SpecParamListItem>
    decreases s,
{
    if s.len() == 0 {
        Seq::empty()
    } else {
        view_param_items(s.drop_last()).push(view_param_item(s.last()))
    }
}

pub open spec fn view_param_item(i: DocParamListItem) -> SpecParamListItem
    decreases i,
{
    SpecParamListItem {
        parameter_name_list: view_name_lists(i.parameter_name_list@),
        parameter_description: view_description(i.parameter_description),
    }
}

// Views of the definitions.

pub open spec fn view_opt_description(d: Option<DescriptionType>) -> Option<Seq<SpecDescriptionItem>> {
    match d {
        Some(d) => Some(view_description(d)),
        None => None,
    }
}

pub open spec fn view_opt_string(s: Option<String>) -> Option<Seq<char>> {
    match s {
        Some(s) => Some(s@),
        None => None,
    }
}

pub open spec fn view_param(p: ParamType) -> SpecParam {
    SpecParam {
        type_: view_opt_linked(p.type_),
        declname: view_opt_string(p.declname),
        defname: view_opt_string(p.defname),
    }
}

pub open spec fn view_params(s: Seq<ParamType>) -> Seq<SpecParam> {
    s.map_values(|p: ParamType| view_param(p))
}

pub open spec fn view_enum_value(v: EnumValueType) -> SpecEnumValue {
    SpecEnumValue {
        id: v.id@,
        name: v.name@,
        initializer: view_opt_linked(v.initializer),
        brief_description: view_opt_description(v.brief_description),
        detailed_description: view_opt_description(v.detailed_description),
    }
}

pub open spec fn view_enum_values(s: Seq<EnumValueType>) -> Seq<SpecEnumValue> {
    s.map_values(|v: EnumValueType| view_enum_value(v))
}

pub open spec fn view_member_def(m: MemberDefType) -> SpecMemberDef {
    SpecMemberDef {
        kind: m.kind,
        id: m.id@,
        static_: m.static_,
        const_: m.const_,
        inline: m.inline,
        type_: view_opt_linked(m.type_),
        name: m.name@,
        qualifiedname: view_opt_string(m.qualifiedname),
        argsstring: view_opt_string(m.argsstring),
        param: view_params(m.param@),
        enumvalue: view_enum_values(m.enumvalue@),
        brief_description: view_opt_description(m.brief_description),
        detailed_description: view_opt_description(m.detailed_description),
    }
}

pub open spec fn view_member_defs(s: Seq<MemberDefType>) -> Seq<SpecMemberDef> {
    s.map_values(|m: MemberDefType| view_member_def(m))
}

pub open spec fn view_section_def(s: SectionDefType) -> SpecSectionDef {
    SpecSectionDef { kind: s.kind, member_defs: view_member_defs(s.member_defs@) }
}

pub open spec fn view_section_defs(s: Seq<SectionDefType>) -> Seq<SpecSectionDef> {
    s.map_values(|d: SectionDefType| view_section_def(d))
}

pub open spec fn view_compound_def(c: CompoundDefType) -> SpecCompoundDef {
    SpecCompoundDef {
        id: c.id@,
        kind: c.kind,
        language: c.language,
        compound_name: c.compound_name@,
        brief_description: view_opt_description(c.brief_description),
        detailed_description: view_opt_description(c.detailed_description),
        innerclass: view_refs(c.innerclass@),
        innergroup: view_refs(c.innergroup@),
        section_defs: view_section_defs(c.section_defs@),
    }
}

pub open spec fn view_doxygen(d: DoxygenType) -> SpecDoxygen {
    SpecDoxygen {
        compound_def: match d.compound_def {
            Some(c) => Some(view_compound_def(c)),
            None => None,
        },
    }
}

} // verus!
