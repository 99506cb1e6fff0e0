use corebrum::factorial_module::checked_factorial;
use corebrum::factorial_module::compute_factorial_with_metadata;
use corebrum::factorial_module::factorial;
use corebrum::factorial_module::get_module_info;
use corebrum::factorial_module::LARGEST_ARGUMENT;
use corebrum::schema::TaskSource;
use corebrum::tasks::decimal_text;
use corebrum::tasks::factorial_task_definition;
use corebrum::tasks::fibonacci_task_definition;

#[test]
fn decimal_text_writes_numbers_without_leading_zeros() {
    assert_eq!(decimal_text(0), "0");
    assert_eq!(decimal_text(7), "7");
    assert_eq!(decimal_text(10), "10");
    assert_eq!(decimal_text(109), "109");
    assert_eq!(decimal_text(3628800), "3628800");
    assert_eq!(decimal_text(u64::MAX), "18446744073709551615");
    for n in 0..2000u64 {
        assert_eq!(decimal_text(n), n.to_string());
    }
}

#[test]
fn factorial_definition_is_an_inline_python_task() {
    let definition = factorial_task_definition(10);
    assert_eq!(definition.name, "factorial_computation");
    assert_eq!(definition.version, "1.0");
    assert_eq!(definition.description, Some("Compute factorial of 10".to_string()));
    assert_eq!(definition.inputs.len(), 1);
    assert_eq!(definition.inputs[0].name, "number");
    assert_eq!(definition.inputs[0].data_type, "integer");
    assert!(definition.inputs[0].required);
    assert_eq!(definition.inputs[0].default_value, Some("10".to_string()));
    assert_eq!(
        definition.inputs[0].description,
        Some("Number to compute factorial for".to_string())
    );
    assert_eq!(definition.outputs.len(), 1);
    assert_eq!(definition.outputs[0].name, "result");
    assert_eq!(definition.outputs[0].data_type, "integer");
    assert_eq!(definition.outputs[0].description, Some("The computed factorial".to_string()));
    let requirements = definition.requirements.unwrap();
    assert_eq!(requirements.memory_mb, Some(10));
    assert_eq!(requirements.cpu_cores, None);
    assert_eq!(requirements.timeout_seconds, Some(30));
    assert_eq!(requirements.dependencies, None);
    match definition.source {
        TaskSource::Inline { code, language } => {
            assert_eq!(language, "python");
            assert!(code.contains("number = int(inputs.get(\"number\", 10))"));
            assert!(code.contains("factorial *= factor"));
            assert!(code.starts_with("import json\n"));
            assert!(code.ends_with("\"input_number\": number}))\n"));
        }
        other => panic!("expected inline code, got {:?}", other),
    }
}

#[test]
fn fibonacci_definition_is_an_inline_python_task() {
    let definition = fibonacci_task_definition(15);
    assert_eq!(definition.name, "fibonacci_sequence");
    assert_eq!(definition.version, "1.0");
    assert_eq!(
        definition.description,
        Some("Generate Fibonacci sequence up to 15 terms".to_string())
    );
    assert_eq!(definition.inputs.len(), 1);
    assert_eq!(definition.inputs[0].name, "terms");
    assert_eq!(definition.inputs[0].default_value, Some("15".to_string()));
    assert_eq!(definition.inputs[0].description, Some("Number of terms to generate".to_string()));
    assert_eq!(definition.outputs.len(), 1);
    assert_eq!(definition.outputs[0].name, "sequence");
    assert_eq!(definition.outputs[0].data_type, "array");
    assert_eq!(definition.outputs[0].description, Some("The Fibonacci sequence".to_string()));
    assert_eq!(definition.requirements.unwrap().memory_mb, Some(5));
    match definition.source {
        TaskSource::Inline { code, language } => {
            assert_eq!(language, "python");
            assert!(code.contains("terms = int(inputs.get(\"terms\", 15))"));
            assert!(code.contains("sequence.append(first)"));
        }
        other => panic!("expected inline code, got {:?}", other),
    }
}

#[test]
fn factorial_of_small_numbers() {
    assert_eq!(factorial(0), 1);
    assert_eq!(factorial(1), 1);
    assert_eq!(factorial(2), 2);
    assert_eq!(factorial(5), 120);
    assert_eq!(factorial(10), 3628800);
    assert_eq!(factorial(20), 2432902008176640000);
    assert_eq!(LARGEST_ARGUMENT, 20);
}

#[test]
fn checked_factorial_refuses_what_does_not_fit() {
    assert_eq!(checked_factorial(0), Some(1));
    assert_eq!(checked_factorial(10), Some(3628800));
    assert_eq!(checked_factorial(20), Some(2432902008176640000));
    assert_eq!(checked_factorial(21), None);
    assert_eq!(checked_factorial(u32::MAX), None);
}

#[test]
fn factorial_report_is_one_json_object() {
    assert_eq!(
        compute_factorial_with_metadata(10, "worker-1", 3, "2024-01-01T00:00:00.000Z"),
        "{\"factorial\":3628800,\"input_number\":10,\"computation_time_ms\":3,\"worker_id\":\"worker-1\",\"method\":\"wasm_url\",\"timestamp\":\"2024-01-01T00:00:00.000Z\"}"
    );
    assert_eq!(
        compute_factorial_with_metadata(0, "", 0, ""),
        "{\"factorial\":1,\"input_number\":0,\"computation_time_ms\":0,\"worker_id\":\"\",\"method\":\"wasm_url\",\"timestamp\":\"\"}"
    );
}

#[test]
fn module_info_names_the_module() {
    assert_eq!(
        get_module_info(),
        "{\"name\":\"factorial_wasm_url\",\"version\":\"1.0\",\"description\":\"WebAssembly factorial computation from URL\",\"language\":\"rust\",\"target\":\"wasm32\",\"source\":\"url\"}"
    );
}
