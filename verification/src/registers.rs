//! The ST3215 memory table: one entry per register, with its address, width,
//! factory default, storage area, access and accepted range.
use vstd::prelude::*;

verus! {

/// One register of the servo's memory table.
#[derive(Debug, Clone)]
pub struct RegisterInfo {
    pub address: u8,
    pub name: String,
    pub bytes: u8,
    pub default_value: Option<i32>,
    /// "EPROM" or "SRAM"
    pub storage: String,
    /// "只读" (read-only) or "读写" (read-write)
    pub permission: String,
    pub min_value: Option<i32>,
    pub max_value: Option<i32>,
    pub unit: String,
    pub description: String,
}

/// A register entry with its text fields taken as character sequences.
pub struct RegisterView {
    pub address: u8,
    pub name: Seq<char>,
    pub bytes: u8,
    pub default_value: Option<i32>,
    pub storage: Seq<char>,
    pub permission: Seq<char>,
    pub min_value: Option<i32>,
    pub max_value: Option<i32>,
    pub unit: Seq<char>,
    pub description: Seq<char>,
}

impl View for RegisterInfo {
    type V = RegisterView;

    open spec fn view(&self) -> RegisterView {
        RegisterView {
            address: self.address,
            name: self.name@,
            bytes: self.bytes,
            default_value: self.default_value,
            storage: self.storage@,
            permission: self.permission@,
            min_value: self.min_value,
            max_value: self.max_value,
            unit: self.unit@,
            description: self.description@,
        }
    }
}

/// The view of one table entry, field by field.
pub open spec fn row(
    address: u8,
    name: Seq<char>,
    bytes: u8,
    default_value: Option<i32>,
    storage: Seq<char>,
    permission: Seq<char>,
    min_value: Option<i32>,
    max_value: Option<i32>,
    unit: Seq<char>,
    description: Seq<char>,
) -> RegisterView {
    RegisterView {
        address,
        name,
        bytes,
        default_value,
        storage,
        permission,
        min_value,
        max_value,
        unit,
        description,
    }
}

/// The memory table, entry by entry, in ascending address order.
pub open spec fn register_table_spec() -> Seq<RegisterView> {
    seq![
        row(0, "固件主版本号"@, 1, Some(3), "EPROM"@, "只读"@, None, None, ""@, "固件主版本号"@),
        row(1, "固件次版本号"@, 1, Some(9), "EPROM"@, "只读"@, None, None, ""@, "固件次版本号"@),
        row(3, "舵机主版本号"@, 1, Some(9), "EPROM"@, "只读"@, None, None, ""@, "舵机主版本号"@),
        row(5, "ID"@, 1, Some(1), "EPROM"@, "读写"@, Some(0), Some(253), "号"@, "总线上唯一的身份识别码"@),
        row(6, "波特率"@, 1, Some(0), "EPROM"@, "读写"@, Some(0), Some(7), ""@, "0-7: 1000000,500000,250000,128000,115200,76800,57600,38400"@),
        row(7, "返回延时"@, 1, Some(0), "EPROM"@, "读写"@, Some(0), Some(254), "2us"@, "最大508us"@),
        row(8, "应答状态级别"@, 1, Some(1), "EPROM"@, "读写"@, Some(0), Some(1), ""@, "0:部分应答 1:全应答"@),
        row(9, "最小角度限制"@, 2, Some(0), "EPROM"@, "读写"@, Some(0), Some(4094), "步"@, "运动行程最小值限制"@),
        row(11, "最大角度限制"@, 2, Some(4095), "EPROM"@, "读写"@, Some(1), Some(4095), "步"@, "运动行程最大值限制"@),
        row(13, "最高温度上限"@, 1, Some(70), "EPROM"@, "读写"@, Some(0), Some(100), "°C"@, "最高工作温度限制"@),
        row(14, "最高输入电压"@, 1, Some(80), "EPROM"@, "读写"@, Some(0), Some(254), "0.1V"@, "最高输入电压限制"@),
        row(15, "最低输入电压"@, 1, Some(40), "EPROM"@, "读写"@, Some(0), Some(254), "0.1V"@, "最低输入电压限制"@),
        row(16, "最大扭矩"@, 2, Some(1000), "EPROM"@, "读写"@, Some(0), Some(1000), "‰"@, "最大输出扭矩限制 1000=100%"@),
        row(18, "相位"@, 1, Some(12), "EPROM"@, "读写"@, Some(0), Some(254), ""@, "特殊功能字节"@),
        row(19, "卸载条件"@, 1, Some(44), "EPROM"@, "读写"@, Some(0), Some(254), ""@, "保护条件设置"@),
        row(20, "LED报警条件"@, 1, Some(47), "EPROM"@, "读写"@, Some(0), Some(254), ""@, "LED报警设置"@),
        row(21, "位置环P"@, 1, Some(32), "EPROM"@, "读写"@, Some(0), Some(254), ""@, "比例系数"@),
        row(22, "位置环D"@, 1, Some(32), "EPROM"@, "读写"@, Some(0), Some(254), ""@, "微分系数"@),
        row(23, "位置环I"@, 1, Some(0), "EPROM"@, "读写"@, Some(0), Some(254), ""@, "积分系数"@),
        row(24, "最小启动力"@, 1, Some(16), "EPROM"@, "读写"@, Some(0), Some(254), "‰"@, "最小输出启动扭矩"@),
        row(25, "积分限制值"@, 1, Some(0), "EPROM"@, "读写"@, Some(0), Some(254), ""@, "0关闭积分限制"@),
        row(26, "顺时针不灵敏区"@, 1, Some(1), "EPROM"@, "读写"@, Some(0), Some(32), "步"@, ""@),
        row(27, "逆时针不灵敏区"@, 1, Some(1), "EPROM"@, "读写"@, Some(0), Some(32), "步"@, ""@),
        row(28, "保护电流"@, 2, Some(500), "EPROM"@, "读写"@, Some(0), Some(511), "6.5mA"@, "最大3250mA"@),
        row(30, "角度分辨率"@, 1, Some(1), "EPROM"@, "读写"@, Some(1), Some(3), ""@, "控制圈数放大系数"@),
        row(31, "位置校正"@, 2, Some(0), "EPROM"@, "读写"@, Some(-2047i32), Some(2047), "步"@, "BIT11为方向位"@),
        row(33, "运行模式"@, 1, Some(0), "EPROM"@, "读写"@, Some(0), Some(3), ""@, "0:位置伺服 1:电机恒速 2:PWM开环 3:步进伺服"@),
        row(34, "保护扭矩"@, 1, Some(20), "EPROM"@, "读写"@, Some(0), Some(100), "%"@, "过载保护后输出扭矩"@),
        row(35, "保护时间"@, 1, Some(200), "EPROM"@, "读写"@, Some(0), Some(254), "10ms"@, "过载保护计时"@),
        row(36, "过载扭矩"@, 1, Some(80), "EPROM"@, "读写"@, Some(0), Some(100), "%"@, "过载保护阈值"@),
        row(37, "速度闭环P"@, 1, Some(10), "EPROM"@, "读写"@, Some(0), Some(254), ""@, "速度环比例系数"@),
        row(38, "过流保护时间"@, 1, Some(200), "EPROM"@, "读写"@, Some(0), Some(254), "10ms"@, "最大2540ms"@),
        row(39, "速度闭环I"@, 1, Some(200), "EPROM"@, "读写"@, Some(0), Some(254), "1/10"@, "速度环积分系数"@),
        row(40, "扭矩开关"@, 1, Some(0), "SRAM"@, "读写"@, Some(0), Some(128), ""@, "0:关闭 1:打开 2:阻尼 128:校正为2048"@),
        row(41, "加速度"@, 1, Some(0), "SRAM"@, "读写"@, Some(0), Some(254), "100步/s²"@, "加减速度"@),
        row(42, "目标位置"@, 2, Some(0), "SRAM"@, "读写"@, Some(-32766i32), Some(32766), "步"@, "绝对位置控制"@),
        row(44, "运行时间"@, 2, Some(0), "SRAM"@, "读写"@, Some(0), Some(1000), "‰"@, "PWM模式用"@),
        row(46, "运行速度"@, 2, Some(0), "SRAM"@, "读写"@, Some(-32766i32), Some(32766), "步/s"@, "50步/s=0.732RPM"@),
        row(48, "转矩限制"@, 2, Some(1000), "SRAM"@, "读写"@, Some(0), Some(1000), "%"@, "最大扭矩输出限制"@),
        row(55, "锁标志"@, 1, Some(1), "SRAM"@, "读写"@, Some(0), Some(1), ""@, "0:EPROM可写 1:EPROM只读"@),
        row(56, "当前位置"@, 2, None, "SRAM"@, "只读"@, None, None, "步"@, "当前位置反馈"@),
        row(58, "当前速度"@, 2, None, "SRAM"@, "只读"@, None, None, "步/s"@, "当前速度反馈"@),
        row(60, "当前负载"@, 2, None, "SRAM"@, "只读"@, None, None, "‰"@, "当前负载反馈"@),
        row(62, "当前电压"@, 1, None, "SRAM"@, "只读"@, None, None, "0.1V"@, "当前电压反馈"@),
        row(63, "当前温度"@, 1, None, "SRAM"@, "只读"@, None, None, "°C"@, "当前温度反馈"@),
        row(64, "异步写标志"@, 1, Some(0), "SRAM"@, "只读"@, None, None, ""@, "异步写标志位"@),
        row(65, "舵机状态"@, 1, Some(0), "SRAM"@, "只读"@, None, None, ""@, "错误状态"@),
        row(66, "移动标志"@, 1, Some(0), "SRAM"@, "只读"@, None, None, ""@, "1:运动中 0:停止"@),
        row(69, "当前电流"@, 2, None, "SRAM"@, "只读"@, None, None, "6.5mA"@, "最大3250mA"@),
    ]
}

fn register(
    address: u8,
    name: &str,
    bytes: u8,
    default_value: Option<i32>,
    storage: &str,
    permission: &str,
    min_value: Option<i32>,
    max_value: Option<i32>,
    unit: &str,
    description: &str,
) -> (r: RegisterInfo)
    ensures
        r@ == row(
            address,
            name@,
            bytes,
            default_value,
            storage@,
            permission@,
            min_value,
            max_value,
            unit@,
            description@,
        ),
{
    RegisterInfo {
        address,
        name: name.to_owned(),
        bytes,
        default_value,
        storage: storage.to_owned(),
        permission: permission.to_owned(),
        min_value,
        max_value,
        unit: unit.to_owned(),
        description: description.to_owned(),
    }
}

/// The views of a list of entries.
pub open spec fn table_view(table: Seq<RegisterInfo>) -> Seq<RegisterView> {
    table.map_values(|r: RegisterInfo| r@)
}

/// Returns every register definition of the memory table.
pub fn get_register_table() -> (table: Vec<RegisterInfo>)
    ensures
        table_view(table@) == register_table_spec(),
{
    let table = vec![
        register(0, "固件主版本号", 1, Some(3), "EPROM", "只读", None, None, "", "固件主版本号"),
        register(1, "固件次版本号", 1, Some(9), "EPROM", "只读", None, None, "", "固件次版本号"),
        register(3, "舵机主版本号", 1, Some(9), "EPROM", "只读", None, None, "", "舵机主版本号"),
        register(5, "ID", 1, Some(1), "EPROM", "读写", Some(0), Some(253), "号", "总线上唯一的身份识别码"),
        register(6, "波特率", 1, Some(0), "EPROM", "读写", Some(0), Some(7), "", "0-7: 1000000,500000,250000,128000,115200,76800,57600,38400"),
        register(7, "返回延时", 1, Some(0), "EPROM", "读写", Some(0), Some(254), "2us", "最大508us"),
        register(8, "应答状态级别", 1, Some(1), "EPROM", "读写", Some(0), Some(1), "", "0:部分应答 1:全应答"),
        register(9, "最小角度限制", 2, Some(0), "EPROM", "读写", Some(0), Some(4094), "步", "运动行程最小值限制"),
        register(11, "最大角度限制", 2, Some(4095), "EPROM", "读写", Some(1), Some(4095), "步", "运动行程最大值限制"),
        register(13, "最高温度上限", 1, Some(70), "EPROM", "读写", Some(0), Some(100), "°C", "最高工作温度限制"),
        register(14, "最高输入电压", 1, Some(80), "EPROM", "读写", Some(0), Some(254), "0.1V", "最高输入电压限制"),
        register(15, "最低输入电压", 1, Some(40), "EPROM", "读写", Some(0), Some(254), "0.1V", "最低输入电压限制"),
        register(16, "最大扭矩", 2, Some(1000), "EPROM", "读写", Some(0), Some(1000), "‰", "最大输出扭矩限制 1000=100%"),
        register(18, "相位", 1, Some(12), "EPROM", "读写", Some(0), Some(254), "", "特殊功能字节"),
        register(19, "卸载条件", 1, Some(44), "EPROM", "读写", Some(0), Some(254), "", "保护条件设置"),
        register(20, "LED报警条件", 1, Some(47), "EPROM", "读写", Some(0), Some(254), "", "LED报警设置"),
        register(21, "位置环P", 1, Some(32), "EPROM", "读写", Some(0), Some(254), "", "比例系数"),
        register(22, "位置环D", 1, Some(32), "EPROM", "读写", Some(0), Some(254), "", "微分系数"),
        register(23, "位置环I", 1, Some(0), "EPROM", "读写", Some(0), Some(254), "", "积分系数"),
        register(24, "最小启动力", 1, Some(16), "EPROM", "读写", Some(0), Some(254), "‰", "最小输出启动扭矩"),
        register(25, "积分限制值", 1, Some(0), "EPROM", "读写", Some(0), Some(254), "", "0关闭积分限制"),
        register(26, "顺时针不灵敏区", 1, Some(1), "EPROM", "读写", Some(0), Some(32), "步", ""),
        register(27, "逆时针不灵敏区", 1, Some(1), "EPROM", "读写", Some(0), Some(32), "步", ""),
        register(28, "保护电流", 2, Some(500), "EPROM", "读写", Some(0), Some(511), "6.5mA", "最大3250mA"),
        register(30, "角度分辨率", 1, Some(1), "EPROM", "读写", Some(1), Some(3), "", "控制圈数放大系数"),
        register(31, "位置校正", 2, Some(0), "EPROM", "读写", Some(-2047), Some(2047), "步", "BIT11为方向位"),
        register(33, "运行模式", 1, Some(0), "EPROM", "读写", Some(0), Some(3), "", "0:位置伺服 1:电机恒速 2:PWM开环 3:步进伺服"),
        register(34, "保护扭矩", 1, Some(20), "EPROM", "读写", Some(0), Some(100), "%", "过载保护后输出扭矩"),
        register(35, "保护时间", 1, Some(200), "EPROM", "读写", Some(0), Some(254), "10ms", "过载保护计时"),
        register(36, "过载扭矩", 1, Some(80), "EPROM", "读写", Some(0), Some(100), "%", "过载保护阈值"),
        register(37, "速度闭环P", 1, Some(10), "EPROM", "读写", Some(0), Some(254), "", "速度环比例系数"),
        register(38, "过流保护时间", 1, Some(200), "EPROM", "读写", Some(0), Some(254), "10ms", "最大2540ms"),
        register(39, "速度闭环I", 1, Some(200), "EPROM", "读写", Some(0), Some(254), "1/10", "速度环积分系数"),
        register(40, "扭矩开关", 1, Some(0), "SRAM", "读写", Some(0), Some(128), "", "0:关闭 1:打开 2:阻尼 128:校正为2048"),
        register(41, "加速度", 1, Some(0), "SRAM", "读写", Some(0), Some(254), "100步/s²", "加减速度"),
        register(42, "目标位置", 2, Some(0), "SRAM", "读写", Some(-32766), Some(32766), "步", "绝对位置控制"),
        register(44, "运行时间", 2, Some(0), "SRAM", "读写", Some(0), Some(1000), "‰", "PWM模式用"),
        register(46, "运行速度", 2, Some(0), "SRAM", "读写", Some(-32766), Some(32766), "步/s", "50步/s=0.732RPM"),
        register(48, "转矩限制", 2, Some(1000), "SRAM", "读写", Some(0), Some(1000), "%", "最大扭矩输出限制"),
        register(55, "锁标志", 1, Some(1), "SRAM", "读写", Some(0), Some(1), "", "0:EPROM可写 1:EPROM只读"),
        register(56, "当前位置", 2, None, "SRAM", "只读", None, None, "步", "当前位置反馈"),
        register(58, "当前速度", 2, None, "SRAM", "只读", None, None, "步/s", "当前速度反馈"),
        register(60, "当前负载", 2, None, "SRAM", "只读", None, None, "‰", "当前负载反馈"),
        register(62, "当前电压", 1, None, "SRAM", "只读", None, None, "0.1V", "当前电压反馈"),
        register(63, "当前温度", 1, None, "SRAM", "只读", None, None, "°C", "当前温度反馈"),
        register(64, "异步写标志", 1, Some(0), "SRAM", "只读", None, None, "", "异步写标志位"),
        register(65, "舵机状态", 1, Some(0), "SRAM", "只读", None, None, "", "错误状态"),
        register(66, "移动标志", 1, Some(0), "SRAM", "只读", None, None, "", "1:运动中 0:停止"),
        register(69, "当前电流", 2, None, "SRAM", "只读", None, None, "6.5mA", "最大3250mA"),
    ];
    assert(table_view(table@) =~= register_table_spec());
    table
}


/// The entry lives in the EPROM area, which keeps its value at power off.
pub open spec fn in_eprom(r: RegisterView) -> bool {
    r.storage == "EPROM"@
}

/// The entry lives in the SRAM area, which loses its value at power off.
pub open spec fn in_sram(r: RegisterView) -> bool {
    r.storage == "SRAM"@
}

/// The entry can only be read.
pub open spec fn read_only(r: RegisterView) -> bool {
    r.permission == "只读"@
}

/// The entry can be read and written.
pub open spec fn read_write(r: RegisterView) -> bool {
    r.permission == "读写"@
}

/// A writable entry has a range `min..=max` that holds its default and fits
/// its width (one byte: 0..=255; two bytes: -32768..=65535).
pub open spec fn writable_range_ok(r: RegisterView) -> bool {
    &&& r.min_value is Some
    &&& r.max_value is Some
    &&& r.default_value is Some
    &&& r.min_value->0 <= r.default_value->0 <= r.max_value->0
    &&& r.bytes == 1 ==> 0 <= r.min_value->0 && r.max_value->0 <= 255
    &&& r.bytes == 2 ==> -32768 <= r.min_value->0 && r.max_value->0 <= 65535
}

/// Registers are one or two bytes wide, listed by ascending address, and none
/// overlaps the next: each ends at or before the address of the next one.
pub proof fn lemma_table_layout()
    ensures
        forall|i: int|
            0 <= i < register_table_spec().len() ==> #[trigger] register_table_spec()[i].bytes == 1
                || register_table_spec()[i].bytes == 2,
        forall|i: int|
            0 <= i < register_table_spec().len() - 1 ==> #[trigger] register_table_spec()[i].address
                + register_table_spec()[i].bytes <= register_table_spec()[i + 1].address,
        forall|i: int, j: int|
            0 <= i < j < register_table_spec().len() ==> #[trigger] register_table_spec()[i].address
                < #[trigger] register_table_spec()[j].address,
{
    let t = register_table_spec();
    assert forall|i: int| 0 <= i < t.len() - 1 implies #[trigger] t[i].address + t[i].bytes
        <= t[i + 1].address && (t[i].bytes == 1 || t[i].bytes == 2) by {}
    assert(t[t.len() - 1].bytes == 2);
    assert forall|i: int, j: int| 0 <= i < j < t.len() implies #[trigger] t[i].address
        < #[trigger] t[j].address by {
        lemma_addresses_increase(t, i, j);
    }
}

proof fn lemma_addresses_increase(t: Seq<RegisterView>, i: int, j: int)
    requires
        0 <= i < j < t.len(),
        forall|k: int|
            0 <= k < t.len() - 1 ==> #[trigger] t[k].address + t[k].bytes <= t[k + 1].address && (
            t[k].bytes == 1 || t[k].bytes == 2),
    ensures
        t[i].address < t[j].address,
    decreases j - i,
{
    if j > i + 1 {
        lemma_addresses_increase(t, i, j - 1);
        let k = j - 1;
        assert(t[k].address + t[k].bytes <= t[k + 1].address);
    } else {
        let k = i;
        assert(t[k].address + t[k].bytes <= t[k + 1].address);
    }
}

/// The EPROM area holds the registers below the torque switch; from the
/// torque switch on, registers are in SRAM.
pub proof fn lemma_table_storage()
    ensures
        forall|i: int|
            0 <= i < register_table_spec().len() ==> (#[trigger] register_table_spec()[i].address
                < crate::servo_protocol::ADDR_TORQUE_SWITCH ==> in_eprom(register_table_spec()[i]))
                && (register_table_spec()[i].address >= crate::servo_protocol::ADDR_TORQUE_SWITCH
                ==> in_sram(register_table_spec()[i])),
{
    let t = register_table_spec();
    assert forall|i: int| 0 <= i < t.len() implies (#[trigger] t[i].address
        < crate::servo_protocol::ADDR_TORQUE_SWITCH ==> in_eprom(t[i])) && (t[i].address
        >= crate::servo_protocol::ADDR_TORQUE_SWITCH ==> in_sram(t[i])) by {}
}

/// Every entry is read-only or read-write. Read-only entries have no range;
/// read-write entries have a range that holds their default and fits their
/// width.
pub proof fn lemma_table_access()
    ensures
        forall|i: int|
            0 <= i < register_table_spec().len() ==> (read_only(#[trigger] register_table_spec()[i])
                && register_table_spec()[i].min_value is None
                && register_table_spec()[i].max_value is None) || (read_write(
                register_table_spec()[i],
            ) && writable_range_ok(register_table_spec()[i])),
{
    let t = register_table_spec();
    assert forall|i: int| 0 <= i < t.len() implies (read_only(#[trigger] t[i]) && t[i].min_value is None
        && t[i].max_value is None) || (read_write(t[i]) && writable_range_ok(t[i])) by {}
}

} // verus!
