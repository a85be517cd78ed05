use plugin_host::plugin::{
    first_missing_function, read_descriptor, read_response, stub_imports, DispatchError,
    LoadError, Stub,
};
use plugin_host::sandbox::StubShape;
use plugin_host::protocol::{
    extract, locate, request_address, wire_length, Fault, FALLBACK_ADDRESS,
};
use plugin_host::envelope::{PluginInfo, PluginResponse};
use plugin_host::sandbox::stub_status;

#[test]
fn fallback_address_is_1024() {
    assert_eq!(FALLBACK_ADDRESS, 1024);
    assert_eq!(request_address(None), 1024);
}

#[test]
fn request_address_takes_what_the_allocator_gave() {
    assert_eq!(request_address(Some(8192)), 8192);
    assert_eq!(request_address(Some(0)), 0);
    assert_eq!(request_address(Some(-5)), -5);
}

#[test]
fn locate_accepts_spans_inside_the_memory() {
    assert_eq!(locate(0, 0, 0), Some((0, 0)));
    assert_eq!(locate(16, 50, 65536), Some((16, 50)));
    assert_eq!(locate(0, 65536, 65536), Some((0, 65536)));
    assert_eq!(locate(65536, 0, 65536), Some((65536, 0)));
    assert_eq!(locate(65535, 1, 65536), Some((65535, 1)));
    assert_eq!(locate(i32::MAX, 0, usize::MAX), Some((2147483647, 0)));
}

#[test]
fn locate_rejects_spans_that_leave_the_memory() {
    assert_eq!(locate(65535, 2, 65536), None);
    assert_eq!(locate(65537, 0, 65536), None);
    assert_eq!(locate(0, 65537, 65536), None);
    assert_eq!(locate(1, 0, 0), None);
    assert_eq!(locate(i32::MAX, i32::MAX, 65536), None);
}

#[test]
fn locate_rejects_negative_numbers() {
    assert_eq!(locate(-1, 4, 65536), None);
    assert_eq!(locate(4, -1, 65536), None);
    assert_eq!(locate(i32::MIN, 0, usize::MAX), None);
    assert_eq!(locate(0, i32::MIN, usize::MAX), None);
}

#[test]
fn wire_length_fits_an_i32() {
    assert_eq!(wire_length(0), Some(0));
    assert_eq!(wire_length(34), Some(34));
    assert_eq!(wire_length(2147483647), Some(i32::MAX));
    assert_eq!(wire_length(2147483648), None);
    assert_eq!(wire_length(usize::MAX), None);
}

#[test]
fn faults_map_to_the_errors_of_each_phase() {
    assert_eq!(LoadError::from_fault(Fault::Trap), LoadError::DescriptorDecodeError);
    assert_eq!(LoadError::from_fault(Fault::Timeout), LoadError::Timeout);
    assert_eq!(DispatchError::from_fault(Fault::Trap), DispatchError::TrapError);
    assert_eq!(DispatchError::from_fault(Fault::Timeout), DispatchError::Timeout);
}

#[test]
fn read_descriptor_decodes_or_reports_the_phase() {
    let bytes = br#"{"name":"n","version":"v","author":"a"}"#;
    assert_eq!(
        read_descriptor(bytes),
        Ok(PluginInfo { name: "n".to_string(), version: "v".to_string(), author: "a".to_string() })
    );
    assert_eq!(read_descriptor(b"{"), Err(LoadError::DescriptorDecodeError));
    assert_eq!(read_descriptor(b"{}"), Err(LoadError::DescriptorDecodeError));
}

#[test]
fn read_response_decodes_or_reports_the_phase() {
    let bytes = br#"{"success":true,"data":"d"}"#;
    assert_eq!(read_response(bytes), Ok(PluginResponse { success: true, data: "d".to_string() }));
    assert_eq!(read_response(b""), Err(DispatchError::ResponseDecodeError));
    assert_eq!(read_response(br#"{"success":true}"#), Err(DispatchError::ResponseDecodeError));
}

#[test]
fn stubs_report_zero() {
    assert_eq!(stub_status(), 0);
}

#[test]
fn stub_table_holds_the_four_system_imports() {
    assert_eq!(
        stub_imports(),
        vec![
            Stub { name: "fd_write", shape: StubShape::Four },
            Stub { name: "environ_sizes_get", shape: StubShape::Two },
            Stub { name: "proc_exit", shape: StubShape::Exit },
            Stub { name: "environ_get", shape: StubShape::Two },
        ]
    );
}

#[test]
fn first_missing_function_goes_by_the_order_of_the_entry_points() {
    assert_eq!(first_missing_function(true, true, true), None);
    assert_eq!(first_missing_function(false, true, true), Some("init"));
    assert_eq!(first_missing_function(false, false, false), Some("init"));
    assert_eq!(first_missing_function(true, false, true), Some("execute"));
    assert_eq!(first_missing_function(true, false, false), Some("execute"));
    assert_eq!(first_missing_function(true, true, false), Some("get_result_len"));
}

#[test]
fn extract_copies_exactly_the_span() {
    let memory = [10u8, 11, 12, 13, 14, 15];
    assert_eq!(extract(&memory, 1, 3), Some(vec![11, 12, 13]));
    assert_eq!(extract(&memory, 0, 6), Some(vec![10, 11, 12, 13, 14, 15]));
    assert_eq!(extract(&memory, 6, 0), Some(vec![]));
    assert_eq!(extract(&memory, 5, 1), Some(vec![15]));
}

#[test]
fn extract_rejects_what_is_no_span_of_the_memory() {
    let memory = [10u8, 11, 12, 13, 14, 15];
    assert_eq!(extract(&memory, 5, 2), None);
    assert_eq!(extract(&memory, 7, 0), None);
    assert_eq!(extract(&memory, -1, 2), None);
    assert_eq!(extract(&memory, 1, -2), None);
    assert_eq!(extract(&[], 0, 1), None);
}
