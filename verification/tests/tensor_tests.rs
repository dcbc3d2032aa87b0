use persia_core::tensor::{
    get_stride_by_shape, DLDataType, DLDevice, DLDeviceType, DType, Device, DeviceType,
    TensorError, TensorMeta,
};

#[test]
fn stride_of_2_3_4_is_12_4_1() {
    assert_eq!(get_stride_by_shape(&[2, 3, 4]), vec![12i64, 4, 1]);
}

#[test]
fn stride_edge_shapes() {
    assert_eq!(get_stride_by_shape(&[]), Vec::<i64>::new());
    assert_eq!(get_stride_by_shape(&[5]), vec![1i64]);
    assert_eq!(get_stride_by_shape(&[1, 1, 1]), vec![1i64, 1, 1]);
    assert_eq!(get_stride_by_shape(&[4, 0, 7]), vec![0i64, 7, 1]);
}

#[test]
fn type_sizes_match_their_widths() {
    assert_eq!(DType::F16.get_type_size(), 2);
    assert_eq!(DType::F32.get_type_size(), 4);
    assert_eq!(DType::F64.get_type_size(), 8);
    assert_eq!(DType::I8.get_type_size(), 1);
    assert_eq!(DType::I16.get_type_size(), 2);
    assert_eq!(DType::I32.get_type_size(), 4);
    assert_eq!(DType::I64.get_type_size(), 8);
    assert_eq!(DType::U8.get_type_size(), 1);
    assert_eq!(DType::U16.get_type_size(), 2);
    assert_eq!(DType::U32.get_type_size(), 4);
    assert_eq!(DType::U64.get_type_size(), 8);
    assert_eq!(DType::USIZE.get_type_size(), std::mem::size_of::<usize>());
}

#[test]
fn type_names_are_their_variants() {
    assert_eq!(DType::F32.get_type_name(), "F32");
    assert_eq!(DType::USIZE.get_type_name(), "USIZE");
    assert_eq!(DType::I64.get_type_name(), "I64");
}

#[test]
fn descriptor_element_types_carry_code_and_width() {
    assert_eq!(DType::F32.to_dldtype(), DLDataType { code: 2, bits: 32, lanes: 1 });
    assert_eq!(DType::F16.to_dldtype(), DLDataType { code: 2, bits: 16, lanes: 1 });
    assert_eq!(DType::I16.to_dldtype(), DLDataType { code: 0, bits: 16, lanes: 1 });
    assert_eq!(DType::U64.to_dldtype(), DLDataType { code: 1, bits: 64, lanes: 1 });
    assert_eq!(DType::USIZE.to_dldtype(), DLDataType { code: 1, bits: 64, lanes: 1 });
}

#[test]
fn devices_carry_an_id_exactly_when_accelerated() {
    let gpu = Device::with_device_id(Some(3));
    assert_eq!(gpu.device_type, DeviceType::GPU);
    assert_eq!(gpu.device_id, Some(3));
    let cpu = Device::with_device_id(None);
    assert_eq!(cpu.device_type, DeviceType::CPU);
    assert_eq!(cpu.device_id, None);
    assert_eq!(Device::default(), cpu);
}

#[test]
fn device_descriptor_fields() {
    let gpu = Device::with_device_id(Some(2));
    assert_eq!(
        gpu.to_dldevicetype(),
        DLDevice { device_id: 2, device_type: DLDeviceType::DLCUDA }
    );
    let cpu = Device::with_device_id(None);
    assert_eq!(
        cpu.to_dldevicetype(),
        DLDevice { device_id: 0, device_type: DLDeviceType::DLCPU }
    );
}

#[test]
fn tensor_meta_derives_stride_and_device() {
    let t = TensorMeta::new(
        DType::F32,
        vec![2, 3, 4],
        Some(String::from("emb")),
        None,
    );
    assert_eq!(t.stride, vec![12i64, 4, 1]);
    assert_eq!(t.device(), "cpu");
    assert_eq!(t.dtype(), DType::F32);
    let g = TensorMeta::new(DType::U64, vec![8], None, Some(1));
    assert_eq!(g.device(), "cuda");
    assert_eq!(g.device.device_id, Some(1));
}

#[test]
fn descriptor_meta_is_assembled_from_the_parts() {
    let t = TensorMeta::new(DType::F16, vec![2, 5], None, None);
    let m = t.dlpack_meta();
    assert_eq!(m.ndim, 2);
    assert_eq!(m.byte_offset, 0);
    assert_eq!(m.dtype, DLDataType { code: 2, bits: 16, lanes: 1 });
    assert_eq!(m.device, DLDevice { device_id: 0, device_type: DLDeviceType::DLCPU });
}

#[test]
fn tensor_error_messages() {
    assert_eq!(TensorError::CPUStorageNotFound.message(), "cpu storagea not found");
    assert_eq!(TensorError::GPUStorageNotFound.message(), "gpu storage not found");
}
