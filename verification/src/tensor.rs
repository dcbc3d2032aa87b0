//! The metadata side of the tensor exchange boundary: element types, device
//! descriptors, the row-major stride rule, and the assembly of the fields of
//! a cross-runtime tensor descriptor. Buffer storage and raw pointers stay
//! with the unverified layer around the library.

use vstd::prelude::*;
use vstd::pervasive::VecAdditionalExecFns;
use vstd::string::StringExecFns;

verus! {

/// Errors of the tensor exchange boundary.
#[derive(Debug, Clone, PartialEq, Eq)]
pub enum TensorError {
    /// A host-memory storage was expected and not found.
    CPUStorageNotFound,
    /// An accelerator-memory storage was expected and not found.
    GPUStorageNotFound,
}

impl TensorError {
    /// The error's message text.
    pub fn message(&self) -> (m: String)
        ensures
            self is CPUStorageNotFound ==> m@ == "cpu storagea not found"@,
            self is GPUStorageNotFound ==> m@ == "gpu storage not found"@,
    {
        match self {
            TensorError::CPUStorageNotFound => String::from_str("cpu storagea not found"),
            TensorError::GPUStorageNotFound => String::from_str("gpu storage not found"),
        }
    }
}

/// The closed set of element types a tensor buffer can carry.
#[derive(Copy, Clone, Debug, PartialEq, Eq, Structural)]
pub enum DType {
    F16,
    F32,
    F64,
    I8,
    I16,
    I32,
    I64,
    U8,
    U16,
    U32,
    U64,
    USIZE,
}

/// The byte width of one element of type `d`, on the 64-bit targets this
/// library runs on.
pub open spec fn dtype_size(d: DType) -> nat {
    match d {
        DType::F16 => 2,
        DType::F32 => 4,
        DType::F64 => 8,
        DType::I8 => 1,
        DType::I16 => 2,
        DType::I32 => 4,
        DType::I64 => 8,
        DType::U8 => 1,
        DType::U16 => 2,
        DType::U32 => 4,
        DType::U64 => 8,
        DType::USIZE => 8,
    }
}

/// The name of element type `d`.
pub open spec fn dtype_name(d: DType) -> Seq<char> {
    match d {
        DType::F16 => "F16"@,
        DType::F32 => "F32"@,
        DType::F64 => "F64"@,
        DType::I8 => "I8"@,
        DType::I16 => "I16"@,
        DType::I32 => "I32"@,
        DType::I64 => "I64"@,
        DType::U8 => "U8"@,
        DType::U16 => "U16"@,
        DType::U32 => "U32"@,
        DType::U64 => "U64"@,
        DType::USIZE => "USIZE"@,
    }
}

/// The type-code classes of the cross-runtime descriptor.
#[derive(Copy, Clone, Debug, PartialEq, Eq, Structural)]
pub enum DLDataTypeCode {
    DLInt,
    DLUInt,
    DLFloat,
}

impl DLDataTypeCode {
    /// The numeric code the descriptor carries for this class: signed
    /// integers 0, unsigned integers 1, floating point 2.
    pub fn code(&self) -> (c: u8)
        ensures
            c == dl_code(*self),
    {
        match self {
            DLDataTypeCode::DLInt => 0,
            DLDataTypeCode::DLUInt => 1,
            DLDataTypeCode::DLFloat => 2,
        }
    }
}

/// The numeric code of type-code class `c`.
pub open spec fn dl_code(c: DLDataTypeCode) -> u8 {
    match c {
        DLDataTypeCode::DLInt => 0,
        DLDataTypeCode::DLUInt => 1,
        DLDataTypeCode::DLFloat => 2,
    }
}

/// The element-type field of the cross-runtime descriptor: code class, bit
/// width, vector lane count.
#[derive(Copy, Clone, Debug, PartialEq, Eq, Structural)]
pub struct DLDataType {
    pub code: u8,
    pub bits: u8,
    pub lanes: u16,
}

/// The descriptor element type that stands for `d`: its code class and bit
/// width, always a single lane. `USIZE` travels as a 64-bit unsigned
/// integer.
pub open spec fn dtype_dl(d: DType) -> DLDataType {
    match d {
        DType::F16 => DLDataType { code: 2, bits: 16, lanes: 1 },
        DType::F32 => DLDataType { code: 2, bits: 32, lanes: 1 },
        DType::F64 => DLDataType { code: 2, bits: 64, lanes: 1 },
        DType::I8 => DLDataType { code: 0, bits: 8, lanes: 1 },
        DType::I16 => DLDataType { code: 0, bits: 16, lanes: 1 },
        DType::I32 => DLDataType { code: 0, bits: 32, lanes: 1 },
        DType::I64 => DLDataType { code: 0, bits: 64, lanes: 1 },
        DType::U8 => DLDataType { code: 1, bits: 8, lanes: 1 },
        DType::U16 => DLDataType { code: 1, bits: 16, lanes: 1 },
        DType::U32 => DLDataType { code: 1, bits: 32, lanes: 1 },
        DType::U64 => DLDataType { code: 1, bits: 64, lanes: 1 },
        DType::USIZE => DLDataType { code: 1, bits: 64, lanes: 1 },
    }
}

impl DType {
    /// Byte size of one element of the current datatype.
    pub fn get_type_size(&self) -> (s: usize)
        ensures
            s == dtype_size(*self),
    {
        match self {
            DType::F16 => 2,
            DType::F32 => 4,
            DType::F64 => 8,
            DType::I8 => 1,
            DType::I16 => 2,
            DType::I32 => 4,
            DType::I64 => 8,
            DType::U8 => 1,
            DType::U16 => 2,
            DType::U32 => 4,
            DType::U64 => 8,
            DType::USIZE => 8,
        }
    }

    /// Name of the current datatype.
    pub fn get_type_name(&self) -> (n: String)
        ensures
            n@ == dtype_name(*self),
    {
        match self {
            DType::F16 => String::from_str("F16"),
            DType::F32 => String::from_str("F32"),
            DType::F64 => String::from_str("F64"),
            DType::I8 => String::from_str("I8"),
            DType::I16 => String::from_str("I16"),
            DType::I32 => String::from_str("I32"),
            DType::I64 => String::from_str("I64"),
            DType::U8 => String::from_str("U8"),
            DType::U16 => String::from_str("U16"),
            DType::U32 => String::from_str("U32"),
            DType::U64 => String::from_str("U64"),
            DType::USIZE => String::from_str("USIZE"),
        }
    }

    /// Converts to the descriptor's element-type field.
    pub fn to_dldtype(&self) -> (t: DLDataType)
        ensures
            t == dtype_dl(*self),
    {
        let (code, bits): (DLDataTypeCode, u8) = match self {
            DType::F16 => (DLDataTypeCode::DLFloat, 16),
            DType::F32 => (DLDataTypeCode::DLFloat, 32),
            DType::F64 => (DLDataTypeCode::DLFloat, 64),
            DType::I8 => (DLDataTypeCode::DLInt, 8),
            DType::I16 => (DLDataTypeCode::DLInt, 16),
            DType::I32 => (DLDataTypeCode::DLInt, 32),
            DType::I64 => (DLDataTypeCode::DLInt, 64),
            DType::U8 => (DLDataTypeCode::DLUInt, 8),
            DType::U16 => (DLDataTypeCode::DLUInt, 16),
            DType::U32 => (DLDataTypeCode::DLUInt, 32),
            DType::U64 => (DLDataTypeCode::DLUInt, 64),
            DType::USIZE => (DLDataTypeCode::DLUInt, 64),
        };
        let code = code.code();
        DLDataType { code, bits, lanes: 1 }
    }
}

/// Where a tensor's buffer lives.
#[derive(Debug, Clone, PartialEq, Eq, Structural)]
pub enum DeviceType {
    CPU,
    GPU,
}

/// The device-type codes of the cross-runtime descriptor: host memory 1,
/// accelerator memory 2.
#[derive(Debug, Clone, Copy, PartialEq, Eq, Structural)]
pub enum DLDeviceType {
    DLCPU,
    DLCUDA,
}

/// The device field of the cross-runtime descriptor.
#[derive(Debug, Clone, Copy, PartialEq, Eq, Structural)]
pub struct DLDevice {
    pub device_id: i32,
    pub device_type: DLDeviceType,
}

/// A device descriptor: host memory, or one accelerator identified by id.
#[derive(Debug, Clone, PartialEq, Eq, Structural)]
pub struct Device {
    pub device_type: DeviceType,
    pub device_id: Option<i32>,
}

impl Device {
    /// A device carries an id exactly when it is an accelerator.
    pub open spec fn wf(&self) -> bool {
        self.device_type is GPU <==> self.device_id is Some
    }

    /// The device standing for an optional accelerator id: an accelerator
    /// when an id is given, host memory otherwise.
    pub fn with_device_id(device_id: Option<i32>) -> (d: Device)
        ensures
            d.wf(),
            d.device_id == device_id,
            d.device_type is GPU <==> device_id is Some,
    {
        match &device_id {
            Some(id) => Device { device_type: DeviceType::GPU, device_id: Some(*id) },
            None => Device { device_type: DeviceType::CPU, device_id: None },
        }
    }

    /// Converts to the descriptor's device field: host memory as device 0,
    /// an accelerator under its id.
    pub fn to_dldevicetype(&self) -> (d: DLDevice)
        requires
            self.wf(),
        ensures
            self.device_type is CPU ==> d == (DLDevice {
                device_id: 0i32,
                device_type: DLDeviceType::DLCPU,
            }),
            self.device_type is GPU ==> d == (DLDevice {
                device_id: self.device_id.unwrap(),
                device_type: DLDeviceType::DLCUDA,
            }),
    {
        match self.device_type {
            DeviceType::CPU => DLDevice { device_id: 0i32, device_type: DLDeviceType::DLCPU },
            DeviceType::GPU => match &self.device_id {
                Some(id) => DLDevice { device_id: *id, device_type: DLDeviceType::DLCUDA },
                None => DLDevice { device_id: 0i32, device_type: DLDeviceType::DLCPU },
            },
        }
    }
}

impl Default for Device {
    /// The default device is host memory.
    fn default() -> (d: Device)
        ensures
            d == (Device { device_type: DeviceType::CPU, device_id: None::<i32> }),
    {
        Device { device_type: DeviceType::CPU, device_id: None }
    }
}

/// The product of `shape[i..]`, the number of elements one step along
/// dimension `i - 1` jumps over in row-major order.
pub open spec fn suffix_prod(shape: Seq<usize>, i: int) -> int
    decreases shape.len() - i,
{
    if i < 0 || i >= shape.len() {
        1
    } else {
        shape[i] * suffix_prod(shape, i + 1)
    }
}

proof fn lemma_suffix_prod_nonneg(shape: Seq<usize>, i: int)
    ensures
        0 <= suffix_prod(shape, i),
    decreases shape.len() - i,
{
    if 0 <= i < shape.len() {
        lemma_suffix_prod_nonneg(shape, i + 1);
        assert(0 <= shape[i] * suffix_prod(shape, i + 1)) by (nonlinear_arith)
            requires
                0 <= shape[i],
                0 <= suffix_prod(shape, i + 1),
        ;
    }
}

/// The row-major stride of `shape`: entry `i` is the cumulative product of
/// the dimensions inner to `i`, and the innermost entry is 1.
pub fn get_stride_by_shape(shape: &[usize]) -> (result: Vec<i64>)
    requires
        forall|i: int| 0 <= i < shape@.len() ==> #[trigger] shape@[i] <= i64::MAX,
        forall|i: int| 0 <= i <= shape@.len() ==> suffix_prod(shape@, i) <= i64::MAX,
    ensures
        result@.len() == shape@.len(),
        forall|i: int| 0 <= i < shape@.len() ==> result@[i] == suffix_prod(shape@, i + 1),
{
    let dim = shape.len();
    let mut result: Vec<i64> = Vec::new();
    let mut t: usize = 0;
    while t < dim
        invariant
            t <= dim,
            result@.len() == t,
            forall|j: int| 0 <= j < t ==> result@[j] == 1i64,
        decreases dim - t,
    {
        result.push(1i64);
        t = t + 1;
    }
    proof {
        assert(suffix_prod(shape@, dim as int) == 1);
    }
    let mut i: usize = 1;
    while i < dim
        invariant
            dim == shape@.len(),
            result@.len() == dim,
            1 <= i,
            i <= dim || dim == 0,
            forall|j: int| 0 <= j < shape@.len() ==> #[trigger] shape@[j] <= i64::MAX,
            forall|j: int| 0 <= j <= shape@.len() ==> suffix_prod(shape@, j) <= i64::MAX,
            forall|j: int|
                0 <= j < dim && dim - i <= j ==> result@[j] == suffix_prod(shape@, j + 1),
            forall|j: int| 0 <= j < dim - i ==> result@[j] == 1i64,
        decreases dim - i,
    {
        let ghost a = suffix_prod(shape@, dim - i + 1);
        let ghost b = shape@[dim - i] as int;
        proof {
            lemma_suffix_prod_nonneg(shape@, dim - i + 1);
            lemma_suffix_prod_nonneg(shape@, dim - i as int);
            assert(suffix_prod(shape@, dim - i as int) == b * a);
            assert(a * b == b * a) by (nonlinear_arith);
            assert(0 <= a * b <= i64::MAX);
            assert(result@[dim - i] == a);
        }
        let v = result[dim - i] * (shape[dim - i] as i64);
        proof {
            assert(v == suffix_prod(shape@, dim - i as int));
        }
        result.set(dim - i - 1, v);
        i = i + 1;
    }
    proof {
        if dim > 0 {
            assert(result@[dim - 1] == suffix_prod(shape@, dim as int));
        }
    }
    result
}

/// The verified metadata of one tensor handed across the exchange boundary:
/// everything of the descriptor except the buffer itself.
#[derive(Debug, Clone, PartialEq, Eq)]
pub struct TensorMeta {
    pub dtype: DType,
    pub shape: Vec<usize>,
    pub stride: Vec<i64>,
    pub name: Option<String>,
    pub device: Device,
}

/// The integer fields of the cross-runtime descriptor, assembled from a
/// tensor's metadata; the unverified layer attaches the buffer and shape
/// pointers around them.
#[derive(Debug, Clone, PartialEq, Eq)]
pub struct DLTensorMeta {
    pub device: DLDevice,
    pub ndim: i32,
    pub dtype: DLDataType,
    pub byte_offset: u64,
}

impl TensorMeta {
    /// The stride is derived from the shape by the row-major rule and the
    /// device carries an id exactly when it is an accelerator.
    pub open spec fn wf(&self) -> bool {
        &&& self.stride@.len() == self.shape@.len()
        &&& forall|i: int|
            0 <= i < self.shape@.len() ==> self.stride@[i] == suffix_prod(self.shape@, i + 1)
        &&& self.device.wf()
    }

    /// Builds the metadata of a new tensor: the stride is computed from the
    /// shape by the row-major rule, and the device stands for the optional
    /// accelerator id.
    pub fn new(dtype: DType, shape: Vec<usize>, name: Option<String>, device_id: Option<i32>) -> (t:
        TensorMeta)
        requires
            forall|i: int| 0 <= i < shape@.len() ==> #[trigger] shape@[i] <= i64::MAX,
            forall|i: int| 0 <= i <= shape@.len() ==> suffix_prod(shape@, i) <= i64::MAX,
        ensures
            t.wf(),
            t.dtype == dtype,
            t.shape == shape,
            t.name == name,
            t.device.device_id == device_id,
            t.device.device_type is GPU <==> device_id is Some,
    {
        let stride = get_stride_by_shape(shape.as_slice());
        let device = Device::with_device_id(device_id);
        TensorMeta { dtype, shape, stride, name, device }
    }

    /// The name of the memory the tensor lives in.
    pub fn device(&self) -> (s: String)
        ensures
            self.device.device_type is CPU ==> s@ == "cpu"@,
            self.device.device_type is GPU ==> s@ == "cuda"@,
    {
        match self.device.device_type {
            DeviceType::CPU => String::from_str("cpu"),
            DeviceType::GPU => String::from_str("cuda"),
        }
    }

    /// The tensor's element type.
    pub fn dtype(&self) -> (d: DType)
        ensures
            d == self.dtype,
    {
        self.dtype
    }

    /// Assembles the integer fields of the cross-runtime descriptor: the
    /// device field, the number of dimensions, the element-type field, and
    /// a zero byte offset.
    pub fn dlpack_meta(&self) -> (m: DLTensorMeta)
        requires
            self.wf(),
            self.shape@.len() <= i32::MAX,
        ensures
            m.ndim == self.shape@.len(),
            m.dtype == dtype_dl(self.dtype),
            m.byte_offset == 0u64,
            self.device.device_type is CPU ==> m.device == (DLDevice {
                device_id: 0i32,
                device_type: DLDeviceType::DLCPU,
            }),
            self.device.device_type is GPU ==> m.device == (DLDevice {
                device_id: self.device.device_id.unwrap(),
                device_type: DLDeviceType::DLCUDA,
            }),
    {
        DLTensorMeta {
            device: self.device.to_dldevicetype(),
            ndim: self.shape.len() as i32,
            dtype: self.dtype.to_dldtype(),
            byte_offset: 0u64,
        }
    }
}

} // verus!
