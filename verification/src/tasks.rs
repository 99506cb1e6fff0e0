//! Ready-made task definitions: the factorial of a number and the first
//! terms of the Fibonacci sequence, each as inline code with the number
//! written into it.

use vstd::prelude::*;
use vstd::string::*;
use crate::schema::TaskDefinition;
use crate::schema::TaskDefinitionView;
use crate::schema::TaskInput;
use crate::schema::TaskInputView;
use crate::schema::TaskOutput;
use crate::schema::TaskOutputView;
use crate::schema::TaskRequirements;
use crate::schema::TaskRequirementsView;
use crate::schema::TaskSource;
use crate::schema::TaskSourceView;

verus! {

/// The character that writes the digit `d`.
pub open spec fn digit_char(d: nat) -> char {
    if d == 0 {
        '0'
    } else if d == 1 {
        '1'
    } else if d == 2 {
        '2'
    } else if d == 3 {
        '3'
    } else if d == 4 {
        '4'
    } else if d == 5 {
        '5'
    } else if d == 6 {
        '6'
    } else if d == 7 {
        '7'
    } else if d == 8 {
        '8'
    } else {
        '9'
    }
}

/// The decimal numeral of `n`, without leading zeros.
pub open spec fn decimal(n: nat) -> Seq<char>
    decreases n,
{
    if n < 10 {
        seq![digit_char(n)]
    } else {
        decimal(n / 10).push(digit_char(n % 10))
    }
}

fn digit_text(d: u64) -> (text: &'static str)
    requires
        d < 10,
    ensures
        text@ == seq![digit_char(d as nat)],
{
    proof {
        reveal_strlit("0");
        reveal_strlit("1");
        reveal_strlit("2");
        reveal_strlit("3");
        reveal_strlit("4");
        reveal_strlit("5");
        reveal_strlit("6");
        reveal_strlit("7");
        reveal_strlit("8");
        reveal_strlit("9");
    }
    let text = if d == 0 {
        "0"
    } else if d == 1 {
        "1"
    } else if d == 2 {
        "2"
    } else if d == 3 {
        "3"
    } else if d == 4 {
        "4"
    } else if d == 5 {
        "5"
    } else if d == 6 {
        "6"
    } else if d == 7 {
        "7"
    } else if d == 8 {
        "8"
    } else {
        "9"
    };
    text
}

/// Writes `n` in decimal.
pub fn decimal_text(n: u64) -> (text: String)
    ensures
        text@ == decimal(n as nat),
    decreases n,
{
    if n < 10 {
        String::from_str(digit_text(n))
    } else {
        let mut text = decimal_text(n / 10);
        text.append(digit_text(n % 10));
        text
    }
}

/// The factorial script up to the place of the default number.
pub const FACTORIAL_SCRIPT_HEAD: &'static str =
    "import json\nimport sys\n\nwith open(sys.argv[1]) as handle:\n    inputs = json.load(handle)\nnumber = int(inputs.get(\"number\", ";

/// The factorial script after the default number.
pub const FACTORIAL_SCRIPT_TAIL: &'static str =
    "))\nfactorial = 1\nfor factor in range(2, number + 1):\n    factorial *= factor\nprint(json.dumps({\"factorial\": factorial, \"input_number\": number}))\n";

/// The Fibonacci script up to the place of the default number of terms.
pub const FIBONACCI_SCRIPT_HEAD: &'static str =
    "import json\nimport sys\n\nwith open(sys.argv[1]) as handle:\n    inputs = json.load(handle)\nterms = int(inputs.get(\"terms\", ";

/// The Fibonacci script after the default number of terms.
pub const FIBONACCI_SCRIPT_TAIL: &'static str =
    "))\nsequence = []\nfirst, second = 0, 1\nfor _ in range(terms):\n    sequence.append(first)\n    first, second = second, first + second\nlast_term = sequence[-1] if sequence else None\nprint(json.dumps({\"sequence\": sequence, \"terms\": len(sequence), \"last_term\": last_term}))\n";

/// Seconds that the ready-made tasks are allowed to run.
pub const SAMPLE_TIMEOUT_SECONDS: u64 = 30;

/// The Python script that computes the factorial of the input `number`, or
/// of `number` where the input gives none.
pub open spec fn factorial_script(number: u64) -> Seq<char> {
    FACTORIAL_SCRIPT_HEAD@ + decimal(number as nat) + FACTORIAL_SCRIPT_TAIL@
}

/// The Python script that lists the first `terms` Fibonacci numbers.
pub open spec fn fibonacci_script(terms: u64) -> Seq<char> {
    FIBONACCI_SCRIPT_HEAD@ + decimal(terms as nat) + FIBONACCI_SCRIPT_TAIL@
}

/// A required integer input with a default.
pub open spec fn integer_input(name: Seq<char>, description: Seq<char>, default: u64)
    -> TaskInputView {
    TaskInputView {
        name,
        data_type: "integer"@,
        description: Some(description),
        required: true,
        default_value: Some(decimal(default as nat)),
    }
}

/// What the ready-made tasks ask for: some memory and the sample timeout.
pub open spec fn sample_requirements(memory_mb: u64) -> TaskRequirementsView {
    TaskRequirementsView {
        memory_mb: Some(memory_mb),
        cpu_cores: None,
        timeout_seconds: Some(SAMPLE_TIMEOUT_SECONDS),
        dependencies: None,
    }
}

/// The task `factorial_computation`: one required integer input `number`
/// with `number` as its default, one integer output `result`, inline Python.
pub open spec fn factorial_definition(number: u64) -> TaskDefinitionView {
    TaskDefinitionView {
        name: "factorial_computation"@,
        version: "1.0"@,
        description: Some("Compute factorial of "@ + decimal(number as nat)),
        inputs: seq![integer_input("number"@, "Number to compute factorial for"@, number)],
        outputs: seq![
            TaskOutputView {
                name: "result"@,
                description: Some("The computed factorial"@),
                data_type: "integer"@,
            },
        ],
        source: TaskSourceView::Inline { code: factorial_script(number), language: "python"@ },
        requirements: Some(sample_requirements(10)),
    }
}

/// The task `fibonacci_sequence`: one required integer input `terms` with
/// `terms` as its default, one array output `sequence`, inline Python.
pub open spec fn fibonacci_definition(terms: u64) -> TaskDefinitionView {
    TaskDefinitionView {
        name: "fibonacci_sequence"@,
        version: "1.0"@,
        description: Some(
            "Generate Fibonacci sequence up to "@ + decimal(terms as nat) + " terms"@,
        ),
        inputs: seq![integer_input("terms"@, "Number of terms to generate"@, terms)],
        outputs: seq![
            TaskOutputView {
                name: "sequence"@,
                description: Some("The Fibonacci sequence"@),
                data_type: "array"@,
            },
        ],
        source: TaskSourceView::Inline { code: fibonacci_script(terms), language: "python"@ },
        requirements: Some(sample_requirements(5)),
    }
}

fn make_integer_input(name: &str, description: &str, default: u64) -> (input: TaskInput)
    ensures
        input@ == integer_input(name@, description@, default),
{
    TaskInput {
        name: String::from_str(name),
        data_type: String::from_str("integer"),
        description: Some(String::from_str(description)),
        required: true,
        default_value: Some(decimal_text(default)),
    }
}

fn make_requirements(memory_mb: u64) -> (requirements: TaskRequirements)
    ensures
        requirements@ == sample_requirements(memory_mb),
{
    TaskRequirements {
        memory_mb: Some(memory_mb),
        cpu_cores: None,
        timeout_seconds: Some(SAMPLE_TIMEOUT_SECONDS),
        dependencies: None,
    }
}

/// The definition of a task that computes the factorial of `number`.
pub fn factorial_task_definition(number: u64) -> (definition: TaskDefinition)
    ensures
        definition@ == factorial_definition(number),
{
    let numeral = decimal_text(number);
    let mut description = String::from_str("Compute factorial of ");
    description.append(numeral.as_str());
    let mut code = String::from_str(FACTORIAL_SCRIPT_HEAD);
    code.append(numeral.as_str());
    code.append(FACTORIAL_SCRIPT_TAIL);
    let mut inputs: Vec<TaskInput> = Vec::new();
    inputs.push(make_integer_input("number", "Number to compute factorial for", number));
    let mut outputs: Vec<TaskOutput> = Vec::new();
    outputs.push(
        TaskOutput {
            name: String::from_str("result"),
            description: Some(String::from_str("The computed factorial")),
            data_type: String::from_str("integer"),
        },
    );
    let definition = TaskDefinition {
        name: String::from_str("factorial_computation"),
        version: String::from_str("1.0"),
        description: Some(description),
        inputs,
        outputs,
        source: TaskSource::Inline { code, language: String::from_str("python") },
        requirements: Some(make_requirements(10)),
    };
    assert(definition@.inputs =~= factorial_definition(number).inputs);
    assert(definition@.outputs =~= factorial_definition(number).outputs);
    definition
}

/// The definition of a task that lists the first `terms` Fibonacci numbers.
pub fn fibonacci_task_definition(terms: u64) -> (definition: TaskDefinition)
    ensures
        definition@ == fibonacci_definition(terms),
{
    let numeral = decimal_text(terms);
    let mut description = String::from_str("Generate Fibonacci sequence up to ");
    description.append(numeral.as_str());
    description.append(" terms");
    let mut code = String::from_str(FIBONACCI_SCRIPT_HEAD);
    code.append(numeral.as_str());
    code.append(FIBONACCI_SCRIPT_TAIL);
    let mut inputs: Vec<TaskInput> = Vec::new();
    inputs.push(make_integer_input("terms", "Number of terms to generate", terms));
    let mut outputs: Vec<TaskOutput> = Vec::new();
    outputs.push(
        TaskOutput {
            name: String::from_str("sequence"),
            description: Some(String::from_str("The Fibonacci sequence")),
            data_type: String::from_str("array"),
        },
    );
    let definition = TaskDefinition {
        name: String::from_str("fibonacci_sequence"),
        version: String::from_str("1.0"),
        description: Some(description),
        inputs,
        outputs,
        source: TaskSource::Inline { code, language: String::from_str("python") },
        requirements: Some(make_requirements(5)),
    };
    assert(definition@.inputs =~= fibonacci_definition(terms).inputs);
    assert(definition@.outputs =~= fibonacci_definition(terms).outputs);
    definition
}

} // verus!
