//! Error values of the library, and the texts that describe the solver's status codes.

use vstd::prelude::*;

verus! {

/// An error reported by the solver or by the layer that drives it.
#[derive(Debug, Clone, PartialEq, Eq)]
pub enum ChemAppError {
    /// The solver answered a call with this nonzero status code.
    NativeError(usize),
    /// The solver library or a database file could not be opened or read.
    LoadError(String),
    /// A file name or a text from the solver has a shape that cannot be used.
    FormatError(String),
    /// A search or a target calculation found no solution.
    ConvergenceError(String),
    /// A failure described by the caller.
    CustomError(String),
}

/// The character of a decimal digit.
pub open spec fn digit_char(d: nat) -> char {
    if d == 0 { '0' }
    else if d == 1 { '1' }
    else if d == 2 { '2' }
    else if d == 3 { '3' }
    else if d == 4 { '4' }
    else if d == 5 { '5' }
    else if d == 6 { '6' }
    else if d == 7 { '7' }
    else if d == 8 { '8' }
    else { '9' }
}

/// The decimal notation of `n`, without sign or leading zeros.
pub open spec fn decimal(n: nat) -> Seq<char>
    decreases n,
{
    if n < 10 {
        seq![digit_char(n)]
    } else {
        decimal(n / 10) + seq![digit_char(n % 10)]
    }
}

/// The description of each status code that the solver documents.
pub open spec fn native_error_text(code: usize) -> Option<Seq<char>> {
    match code {
        0 => Some("No error"@),
        101 => Some("The subroutine 'TQINI' must be called first"@),
        102 => Some("The input/output file has not been opened"@),
        103 => Some("The thermodynamic data-file could not be completely entered due to a read error"@),
        104 => Some("A thermodynamic data-file must be read first"@),
        105 => Some("The entered unit number is not permitted (expected value: <=10 or >=20)"@),
        106 => Some("The entered language index is out of range"@),
        107 => Some("The file cannot be opened"@),
        108 => Some("The file cannot be closed"@),
        109 => Some("The character string could not be written to the unit"@),
        110 => Some("A phase or phase constituent could not be completely entered due to a read error"@),
        111 => Some("Excess magnetic interaction could not be completely entered"@),
        112 => Some("Excess Gibbs energy interaction could not be completely entered"@),
        150 => Some("A transparent data-file must be read first"@),
        151 => Some("The user ID is corrupt"@),
        152 => Some("The user name is corrupt"@),
        153 => Some("No proper user ID authorization to enter the data-file"@),
        154 => Some("This version of ChemApp cannot write any data-files"@),
        155 => Some("The checksum calculation indicates that the data-file is corrupt"@),
        156 => Some("The size of the thermochemical system is different from what is specified in the header"@),
        157 => Some("The thermodynamic data-file has reached its expiry date"@),
        158 => Some("The program/library name is corrupt"@),
        159 => Some("This program is not authorized to read this data-file"@),
        160 => Some("The thermochemical system is too big for this version of ChemApp"@),
        161 => Some("The magic bytes indicate that the file entered is not a transparent data-file"@),
        162 => Some("The transparent file format version is unknown to this version of ChemApp"@),
        163 => Some("No valid dongle found"@),
        164 => Some("Dongle licensing information does not authorize the execution of this program"@),
        201 => Some("The entered option cannot be interpreted"@),
        202 => Some("The entered stream identifier cannot be interpreted"@),
        203 => Some("The entered option is not implemented"@),
        204 => Some("Amount unit reset to mol (the molecular mass of a phase constituent is <=0)"@),
        301 => Some("The character input contains more than 24 characters"@),
        302 => Some("The character input is not uniquely abbreviated"@),
        303 => Some("The character input is not a phase"@),
        304 => Some("The character input is not a constituent of the entered phase"@),
        305 => Some("The character input is not a system component"@),
        306 => Some("The character input is not a phase constituent or a system component"@),
        307 => Some("Names for a number of system components that is equal to that of the thermodynamic data-file have to be entered"@),
        308 => Some("The entered system components are not linearly independent"@),
        309 => Some("Status for the selected phase constituent cannot be changed"@),
        310 => Some("Statuses for the constituents of a phase are inconsistent"@),
        311 => Some("The character input is not a constituent of the entered sublattice"@),
        312 => Some("<NAME> is a system component, but without charge"@),
        401 => Some("The entered system component index is out of range"@),
        402 => Some("The entered phase index is out of range"@),
        403 => Some("The entered phase constituent index is out of range"@),
        404 => Some("The entered value of the variable NUMCON is false"@),
        405 => Some("The total number of streams or stream constituents is out of range"@),
        406 => Some("The entered sublattice index is out of range"@),
        407 => Some("The entered sublattice constituent index is out of range"@),
        501 => Some("'TQSETC' and 'TQSTCA' cannot be used interchangeably for setting conditions"@),
        502 => Some("The entered option is not defined for system components"@),
        503 => Some("The entered constituent amounts for streams must not be less than zero"@),
        504 => Some("The entered option is not permitted, please use 'TQSTCA' or 'TQCE'"@),
        505 => Some("Enter the lower and upper limits of the target variable in reverse order"@),
        506 => Some("The lower and upper limits (VALS(1) and VALS(2)) must differ"@),
        507 => Some("The upper limit (VALS(2)) must be greater than (or equal to) zero"@),
        508 => Some("Enter input composition before executing the equilibrium calculation"@),
        509 => Some("Enter a pressure > 0 before executing the equilibrium calculation"@),
        510 => Some("Enter a temperature > 0 K before executing the equilibrium calculation"@),
        511 => Some("Define a target before executing the equilibrium calculation"@),
        512 => Some("Define a target variable before executing the equilibrium calculation"@),
        513 => Some("Modify input composition before executing the equilibrium calculation"@),
        514 => Some("Incoming amounts for metallic constituents of phases described by the two-sublattice ionic formalism and for constituents of phases described by the species chemical potential/bond energy formalism cannot be entered"@),
        515 => Some("Target calculations are not permitted with ChemApp 'light'"@),
        516 => Some("Calculate a chemical equilibrium with 'TQCE' before calling 'TQCEN'"@),
        601 => Some("Incoming amounts are not calculated for phases or the entire system"@),
        602 => Some("Activities for the entire system are not defined"@),
        603 => Some("Extensive properties for system components are not defined"@),
        604 => Some("Fractions of system components are not permitted for phase indices <= 0"@),
        605 => Some("Fractions of system components cannot be calculated"@),
        606 => Some("Activities of system components cannot be calculated in this case"@),
        607 => Some("Mole fractions of pairs or quadruplets are not calculated"@),
        608 => Some("Extensive properties are not calculated when stream constituents are eliminated"@),
        609 => Some("Eh or pH cannot be calculated"@),
        701 => Some("Equilibrium composition not obtained; all possible assemblies of phases were considered"@),
        702 => Some("Equilibrium composition not obtained; 200 different assemblies of phases were considered"@),
        703 => Some("Equilibrium composition not obtained; the reactant input cannot correspond to chemical equilibrium conditions"@),
        704 => Some("Equilibrium composition not obtained; one reactant amount must be independent and different from zero"@),
        705 => Some("Equilibrium composition not obtained; the mass balance equations cannot be solved"@),
        706 => Some("Equilibrium composition not obtained; this constant volume calculation cannot be executed"@),
        707 => Some("Target calculation aborted; the maximum number of iterations (99) is exceeded"@),
        708 => Some("Target calculation aborted; reactant activities are not permitted"@),
        709 => Some("Target calculation aborted; negative reactant amounts are not permitted"@),
        710 => Some("Target calculation aborted; the entered phase cannot be target phase under the given conditions"@),
        711 => Some("Target calculation aborted; no solution is found within the permitted interval"@),
        712 => Some("Target calculation aborted; the value of the target variable is less than the lowest permitted"@),
        713 => Some("Target calculation aborted; the value of the target variable is greater than the highest permitted"@),
        901 => Some("The file cannot be opened"@),
        902 => Some("The file cannot be closed"@),
        1000 => Some("An ASCII data-file must be read first"@),
        1003 => Some("The entered index number for a Cp equation is out of range"@),
        1004 => Some("No molar volume data have been entered for the requested phase"@),
        1005 => Some("No real gas data have been entered for the requested phase"@),
        1006 => Some("No magnetic data have been entered for the requested phase"@),
        1007 => Some("The requested phase is not aqueous"@),
        1008 => Some("No excess Gibbs energy data have been entered for the requested phase"@),
        1009 => Some("No excess magnetic data have been entered for the requested phase"@),
        1021 => Some("The first entered index number is out of range"@),
        1022 => Some("The second entered index number is out of range"@),
        1023 => Some("The third entered index number is out of range"@),
        1024 => Some("The fourth entered index number is out of range"@),
        1025 => Some("No equation-of-state terms have been entered for the requested phase"@),
        _ => None,
    }
}

/// The text that describes an error.
pub open spec fn describe(e: ChemAppError) -> Seq<char> {
    match e {
        ChemAppError::NativeError(code) => match native_error_text(code) {
            Some(text) => "ChemApp error "@ + decimal(code as nat) + ", "@ + text,
            None => "Unrecognized ChemApp error "@ + decimal(code as nat),
        },
        ChemAppError::LoadError(m) => m@,
        ChemAppError::FormatError(m) => m@,
        ChemAppError::ConvergenceError(m) => m@,
        ChemAppError::CustomError(m) => m@,
    }
}

/// Looks up the description of a solver status code.
pub fn native_error_description(code: usize) -> (r: Option<&'static str>)
    ensures
        match r {
            Some(text) => native_error_text(code) == Some(text@),
            None => native_error_text(code).is_none(),
        },
{
    match code {
        0 => Some("No error"),
        101 => Some("The subroutine 'TQINI' must be called first"),
        102 => Some("The input/output file has not been opened"),
        103 => Some("The thermodynamic data-file could not be completely entered due to a read error"),
        104 => Some("A thermodynamic data-file must be read first"),
        105 => Some("The entered unit number is not permitted (expected value: <=10 or >=20)"),
        106 => Some("The entered language index is out of range"),
        107 => Some("The file cannot be opened"),
        108 => Some("The file cannot be closed"),
        109 => Some("The character string could not be written to the unit"),
        110 => Some("A phase or phase constituent could not be completely entered due to a read error"),
        111 => Some("Excess magnetic interaction could not be completely entered"),
        112 => Some("Excess Gibbs energy interaction could not be completely entered"),
        150 => Some("A transparent data-file must be read first"),
        151 => Some("The user ID is corrupt"),
        152 => Some("The user name is corrupt"),
        153 => Some("No proper user ID authorization to enter the data-file"),
        154 => Some("This version of ChemApp cannot write any data-files"),
        155 => Some("The checksum calculation indicates that the data-file is corrupt"),
        156 => Some("The size of the thermochemical system is different from what is specified in the header"),
        157 => Some("The thermodynamic data-file has reached its expiry date"),
        158 => Some("The program/library name is corrupt"),
        159 => Some("This program is not authorized to read this data-file"),
        160 => Some("The thermochemical system is too big for this version of ChemApp"),
        161 => Some("The magic bytes indicate that the file entered is not a transparent data-file"),
        162 => Some("The transparent file format version is unknown to this version of ChemApp"),
        163 => Some("No valid dongle found"),
        164 => Some("Dongle licensing information does not authorize the execution of this program"),
        201 => Some("The entered option cannot be interpreted"),
        202 => Some("The entered stream identifier cannot be interpreted"),
        203 => Some("The entered option is not implemented"),
        204 => Some("Amount unit reset to mol (the molecular mass of a phase constituent is <=0)"),
        301 => Some("The character input contains more than 24 characters"),
        302 => Some("The character input is not uniquely abbreviated"),
        303 => Some("The character input is not a phase"),
        304 => Some("The character input is not a constituent of the entered phase"),
        305 => Some("The character input is not a system component"),
        306 => Some("The character input is not a phase constituent or a system component"),
        307 => Some("Names for a number of system components that is equal to that of the thermodynamic data-file have to be entered"),
        308 => Some("The entered system components are not linearly independent"),
        309 => Some("Status for the selected phase constituent cannot be changed"),
        310 => Some("Statuses for the constituents of a phase are inconsistent"),
        311 => Some("The character input is not a constituent of the entered sublattice"),
        312 => Some("<NAME> is a system component, but without charge"),
        401 => Some("The entered system component index is out of range"),
        402 => Some("The entered phase index is out of range"),
        403 => Some("The entered phase constituent index is out of range"),
        404 => Some("The entered value of the variable NUMCON is false"),
        405 => Some("The total number of streams or stream constituents is out of range"),
        406 => Some("The entered sublattice index is out of range"),
        407 => Some("The entered sublattice constituent index is out of range"),
        501 => Some("'TQSETC' and 'TQSTCA' cannot be used interchangeably for setting conditions"),
        502 => Some("The entered option is not defined for system components"),
        503 => Some("The entered constituent amounts for streams must not be less than zero"),
        504 => Some("The entered option is not permitted, please use 'TQSTCA' or 'TQCE'"),
        505 => Some("Enter the lower and upper limits of the target variable in reverse order"),
        506 => Some("The lower and upper limits (VALS(1) and VALS(2)) must differ"),
        507 => Some("The upper limit (VALS(2)) must be greater than (or equal to) zero"),
        508 => Some("Enter input composition before executing the equilibrium calculation"),
        509 => Some("Enter a pressure > 0 before executing the equilibrium calculation"),
        510 => Some("Enter a temperature > 0 K before executing the equilibrium calculation"),
        511 => Some("Define a target before executing the equilibrium calculation"),
        512 => Some("Define a target variable before executing the equilibrium calculation"),
        513 => Some("Modify input composition before executing the equilibrium calculation"),
        514 => Some("Incoming amounts for metallic constituents of phases described by the two-sublattice ionic formalism and for constituents of phases described by the species chemical potential/bond energy formalism cannot be entered"),
        515 => Some("Target calculations are not permitted with ChemApp 'light'"),
        516 => Some("Calculate a chemical equilibrium with 'TQCE' before calling 'TQCEN'"),
        601 => Some("Incoming amounts are not calculated for phases or the entire system"),
        602 => Some("Activities for the entire system are not defined"),
        603 => Some("Extensive properties for system components are not defined"),
        604 => Some("Fractions of system components are not permitted for phase indices <= 0"),
        605 => Some("Fractions of system components cannot be calculated"),
        606 => Some("Activities of system components cannot be calculated in this case"),
        607 => Some("Mole fractions of pairs or quadruplets are not calculated"),
        608 => Some("Extensive properties are not calculated when stream constituents are eliminated"),
        609 => Some("Eh or pH cannot be calculated"),
        701 => Some("Equilibrium composition not obtained; all possible assemblies of phases were considered"),
        702 => Some("Equilibrium composition not obtained; 200 different assemblies of phases were considered"),
        703 => Some("Equilibrium composition not obtained; the reactant input cannot correspond to chemical equilibrium conditions"),
        704 => Some("Equilibrium composition not obtained; one reactant amount must be independent and different from zero"),
        705 => Some("Equilibrium composition not obtained; the mass balance equations cannot be solved"),
        706 => Some("Equilibrium composition not obtained; this constant volume calculation cannot be executed"),
        707 => Some("Target calculation aborted; the maximum number of iterations (99) is exceeded"),
        708 => Some("Target calculation aborted; reactant activities are not permitted"),
        709 => Some("Target calculation aborted; negative reactant amounts are not permitted"),
        710 => Some("Target calculation aborted; the entered phase cannot be target phase under the given conditions"),
        711 => Some("Target calculation aborted; no solution is found within the permitted interval"),
        712 => Some("Target calculation aborted; the value of the target variable is less than the lowest permitted"),
        713 => Some("Target calculation aborted; the value of the target variable is greater than the highest permitted"),
        901 => Some("The file cannot be opened"),
        902 => Some("The file cannot be closed"),
        1000 => Some("An ASCII data-file must be read first"),
        1003 => Some("The entered index number for a Cp equation is out of range"),
        1004 => Some("No molar volume data have been entered for the requested phase"),
        1005 => Some("No real gas data have been entered for the requested phase"),
        1006 => Some("No magnetic data have been entered for the requested phase"),
        1007 => Some("The requested phase is not aqueous"),
        1008 => Some("No excess Gibbs energy data have been entered for the requested phase"),
        1009 => Some("No excess magnetic data have been entered for the requested phase"),
        1021 => Some("The first entered index number is out of range"),
        1022 => Some("The second entered index number is out of range"),
        1023 => Some("The third entered index number is out of range"),
        1024 => Some("The fourth entered index number is out of range"),
        1025 => Some("No equation-of-state terms have been entered for the requested phase"),
        _ => None,
    }
}

fn digit_text(d: usize) -> (r: &'static str)
    requires
        d < 10,
    ensures
        r@ == seq![digit_char(d as nat)],
{
    if d == 0 {
        proof { reveal_strlit("0"); }
        "0"
    } else if d == 1 {
        proof { reveal_strlit("1"); }
        "1"
    } else if d == 2 {
        proof { reveal_strlit("2"); }
        "2"
    } else if d == 3 {
        proof { reveal_strlit("3"); }
        "3"
    } else if d == 4 {
        proof { reveal_strlit("4"); }
        "4"
    } else if d == 5 {
        proof { reveal_strlit("5"); }
        "5"
    } else if d == 6 {
        proof { reveal_strlit("6"); }
        "6"
    } else if d == 7 {
        proof { reveal_strlit("7"); }
        "7"
    } else if d == 8 {
        proof { reveal_strlit("8"); }
        "8"
    } else {
        proof { reveal_strlit("9"); }
        "9"
    }
}

/// Writes `n` in decimal notation.
pub fn decimal_text(n: usize) -> (r: String)
    ensures
        r@ == decimal(n as nat),
    decreases n,
{
    if n < 10 {
        String::from_str(digit_text(n))
    } else {
        let mut s = decimal_text(n / 10);
        s.append(digit_text(n % 10));
        s
    }
}

impl ChemAppError {
    /// A readable description: the code and its documented meaning for a
    /// solver status, the message itself for the other kinds.
    pub fn description(&self) -> (r: String)
        ensures
            r@ == describe(*self),
    {
        match self {
            ChemAppError::NativeError(code) => {
                let number = decimal_text(*code);
                match native_error_description(*code) {
                    Some(text) => {
                        let r = String::from_str("ChemApp error ").concat(number.as_str());
                        r.concat(", ").concat(text)
                    },
                    None => String::from_str("Unrecognized ChemApp error ").concat(number.as_str()),
                }
            },
            ChemAppError::LoadError(m) => m.clone(),
            ChemAppError::FormatError(m) => m.clone(),
            ChemAppError::ConvergenceError(m) => m.clone(),
            ChemAppError::CustomError(m) => m.clone(),
        }
    }
}

} // verus!
