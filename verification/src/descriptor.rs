//! UFS descriptors.

use vstd::prelude::*;

use crate::endian::{self, get_be16, get_be32, get_be64};
use crate::error::Error;

verus! {

/// Size of the largest descriptor.
pub const QUERY_DESC_MAX_SIZE: usize = 255;

/// The raw bytes of a descriptor.
#[derive(Clone, Copy, Debug)]
pub struct DescBuffer {
    pub data: [u8; QUERY_DESC_MAX_SIZE],
}

/// Identification number of a descriptor.
#[derive(Clone, Copy, Debug, PartialEq, Eq, Structural)]
pub enum DescIdn {
    Device,
    Config,
    Unit,
    RFU0,
    Interconn,
    String,
    RFU1,
    Geometry,
    Power,
    Health,
    /// Any other descriptor.
    Reserved,
}

impl DescIdn {
    /// The number that stands for the variant on the wire.
    pub open spec fn number(self) -> u8 {
        match self {
            DescIdn::Device => 0x0,
            DescIdn::Config => 0x1,
            DescIdn::Unit => 0x2,
            DescIdn::RFU0 => 0x3,
            DescIdn::Interconn => 0x4,
            DescIdn::String => 0x5,
            DescIdn::RFU1 => 0x6,
            DescIdn::Geometry => 0x7,
            DescIdn::Power => 0x8,
            DescIdn::Health => 0x9,
            DescIdn::Reserved => 0xFF,
        }
    }

    /// The number that stands for the variant on the wire.
    pub fn code(self) -> (r: u8)
        ensures
            r == self.number(),
    {
        match self {
            DescIdn::Device => 0x0,
            DescIdn::Config => 0x1,
            DescIdn::Unit => 0x2,
            DescIdn::RFU0 => 0x3,
            DescIdn::Interconn => 0x4,
            DescIdn::String => 0x5,
            DescIdn::RFU1 => 0x6,
            DescIdn::Geometry => 0x7,
            DescIdn::Power => 0x8,
            DescIdn::Health => 0x9,
            DescIdn::Reserved => 0xFF,
        }
    }
}

impl DescIdn {
    /// The variant that a number on the wire stands for.
    pub open spec fn decode(idn: u8) -> Self {
        if idn == 0x0 {
            DescIdn::Device
        } else if idn == 0x1 {
            DescIdn::Config
        } else if idn == 0x2 {
            DescIdn::Unit
        } else if idn == 0x3 {
            DescIdn::RFU0
        } else if idn == 0x4 {
            DescIdn::Interconn
        } else if idn == 0x5 {
            DescIdn::String
        } else if idn == 0x6 {
            DescIdn::RFU1
        } else if idn == 0x7 {
            DescIdn::Geometry
        } else if idn == 0x8 {
            DescIdn::Power
        } else if idn == 0x9 {
            DescIdn::Health
        } else {
            DescIdn::Reserved
        }
    }
}

impl From<u8> for DescIdn {
    fn from(idn: u8) -> (r: DescIdn) {
        match idn {
            0x0 => DescIdn::Device,
            0x1 => DescIdn::Config,
            0x2 => DescIdn::Unit,
            0x3 => DescIdn::RFU0,
            0x4 => DescIdn::Interconn,
            0x5 => DescIdn::String,
            0x6 => DescIdn::RFU1,
            0x7 => DescIdn::Geometry,
            0x8 => DescIdn::Power,
            0x9 => DescIdn::Health,
            _ => DescIdn::Reserved,
        }
    }
}

impl vstd::std_specs::convert::FromSpecImpl<u8> for DescIdn {
    open spec fn obeys_from_spec() -> bool {
        true
    }

    open spec fn from_spec(idn: u8) -> DescIdn {
        DescIdn::decode(idn)
    }
}

/// Decoding the number of a variant gives the variant back, and a number that
/// does not decode to the catch-all variant is the number of what it decodes to.
pub proof fn law_desc_idn_round_trip(v: DescIdn, n: u8)
    ensures
        DescIdn::decode(v.number()) == v,
        DescIdn::decode(n) != DescIdn::Reserved ==> DescIdn::decode(n).number() == n,
{
}

/// The device descriptor, with its integers in host byte order.
#[derive(Clone, Copy, Debug, PartialEq, Eq, Structural)]
pub struct DeviceDesc {
    pub length: u8,
    pub descriptor_idn: u8,
    pub device: u8,
    pub device_class: u8,
    pub device_sub_class: u8,
    pub protocol: u8,
    pub number_lu: u8,
    pub number_wlu: u8,
    pub boot_enable: u8,
    pub descr_access_en: u8,
    pub init_power_mode: u8,
    pub high_priority_lun: u8,
    pub secure_removal_type: u8,
    pub security_lu: u8,
    pub background_ops_term_lat: u8,
    pub init_active_icc_level: u8,
    pub spec_version: u16,
    pub manufacture_date: u16,
    pub manufacturer_name: u8,
    pub product_name: u8,
    pub serial_number: u8,
    pub oem_id: u8,
    pub manufacturer_id: u16,
    pub ud_0_base_offset: u8,
    pub ud_config_p_length: u8,
    pub device_rtt_cap: u8,
    pub periodic_rtc_update: u16,
    pub ufs_features_support: u8,
    pub ffu_timeout: u8,
    pub queue_depth: u8,
    pub device_version: u16,
    pub num_secure_wp_area: u8,
    pub psa_max_data_size: u32,
    pub psa_state_timeout: u8,
    pub product_revision_level: u8,
    pub extended_wb_support: u16,
    pub extended_ufs_features_support: u32,
    pub write_booster_buffer_preserve_user_space_en: u8,
    pub write_booster_buffer_type: u8,
    pub num_shared_write_booster_buffer_alloc_units: u32,
}

impl DeviceDesc {
    /// The descriptor that the bytes of a descriptor buffer denote.
    pub open spec fn decode(data: Seq<u8>) -> Self {
        DeviceDesc {
            length: data[0],
            descriptor_idn: data[1],
            device: data[2],
            device_class: data[3],
            device_sub_class: data[4],
            protocol: data[5],
            number_lu: data[6],
            number_wlu: data[7],
            boot_enable: data[8],
            descr_access_en: data[9],
            init_power_mode: data[10],
            high_priority_lun: data[11],
            secure_removal_type: data[12],
            security_lu: data[13],
            background_ops_term_lat: data[14],
            init_active_icc_level: data[15],
            spec_version: endian::be_value(data.subrange(16, 18)) as u16,
            manufacture_date: endian::be_value(data.subrange(18, 20)) as u16,
            manufacturer_name: data[20],
            product_name: data[21],
            serial_number: data[22],
            oem_id: data[23],
            manufacturer_id: endian::be_value(data.subrange(24, 26)) as u16,
            ud_0_base_offset: data[26],
            ud_config_p_length: data[27],
            device_rtt_cap: data[28],
            periodic_rtc_update: endian::be_value(data.subrange(29, 31)) as u16,
            ufs_features_support: data[31],
            ffu_timeout: data[32],
            queue_depth: data[33],
            device_version: endian::be_value(data.subrange(34, 36)) as u16,
            num_secure_wp_area: data[36],
            psa_max_data_size: endian::be_value(data.subrange(37, 41)) as u32,
            psa_state_timeout: data[41],
            product_revision_level: data[42],
            extended_wb_support: endian::be_value(data.subrange(77, 79)) as u16,
            extended_ufs_features_support: endian::be_value(data.subrange(79, 83)) as u32,
            write_booster_buffer_preserve_user_space_en: data[83],
            write_booster_buffer_type: data[84],
            num_shared_write_booster_buffer_alloc_units: endian::be_value(data.subrange(85, 89)) as u32,
        }
    }

    /// Decodes the descriptor from a descriptor buffer.
    pub fn from_buffer(buffer: DescBuffer) -> (r: Self)
        ensures
            r == Self::decode(buffer.data@),
    {
        DeviceDesc {
            length: buffer.data[0],
            descriptor_idn: buffer.data[1],
            device: buffer.data[2],
            device_class: buffer.data[3],
            device_sub_class: buffer.data[4],
            protocol: buffer.data[5],
            number_lu: buffer.data[6],
            number_wlu: buffer.data[7],
            boot_enable: buffer.data[8],
            descr_access_en: buffer.data[9],
            init_power_mode: buffer.data[10],
            high_priority_lun: buffer.data[11],
            secure_removal_type: buffer.data[12],
            security_lu: buffer.data[13],
            background_ops_term_lat: buffer.data[14],
            init_active_icc_level: buffer.data[15],
            spec_version: get_be16(&buffer.data, 16),
            manufacture_date: get_be16(&buffer.data, 18),
            manufacturer_name: buffer.data[20],
            product_name: buffer.data[21],
            serial_number: buffer.data[22],
            oem_id: buffer.data[23],
            manufacturer_id: get_be16(&buffer.data, 24),
            ud_0_base_offset: buffer.data[26],
            ud_config_p_length: buffer.data[27],
            device_rtt_cap: buffer.data[28],
            periodic_rtc_update: get_be16(&buffer.data, 29),
            ufs_features_support: buffer.data[31],
            ffu_timeout: buffer.data[32],
            queue_depth: buffer.data[33],
            device_version: get_be16(&buffer.data, 34),
            num_secure_wp_area: buffer.data[36],
            psa_max_data_size: get_be32(&buffer.data, 37),
            psa_state_timeout: buffer.data[41],
            product_revision_level: buffer.data[42],
            extended_wb_support: get_be16(&buffer.data, 77),
            extended_ufs_features_support: get_be32(&buffer.data, 79),
            write_booster_buffer_preserve_user_space_en: buffer.data[83],
            write_booster_buffer_type: buffer.data[84],
            num_shared_write_booster_buffer_alloc_units: get_be32(&buffer.data, 85),
        }
    }
}

/// The geometry descriptor, with its integers in host byte order.
#[derive(Clone, Copy, Debug, PartialEq, Eq, Structural)]
pub struct GeometryDesc {
    pub length: u8,
    pub descriptor_idn: u8,
    pub media_technology: u8,
    pub total_raw_device_capacity: u64,
    pub max_number_lu: u8,
    pub segment_size: u32,
    pub allocation_unit_size: u8,
    pub min_addr_block_size: u8,
    pub optimal_read_block_size: u8,
    pub optimal_write_block_size: u8,
    pub max_in_buffer_size: u8,
    pub max_out_buffer_size: u8,
    pub rpmb_read_write_size: u8,
    pub dynamic_capacity_resource_policy: u8,
    pub data_ordering: u8,
    pub max_context_id_number: u8,
    pub sys_data_tag_unit_size: u8,
    pub sys_data_tag_res_size: u8,
    pub supported_sec_r_types: u8,
    pub supported_memory_types: u16,
    pub system_code_max_n_alloc_u: u32,
    pub system_code_cap_adj_fac: u16,
    pub non_persist_max_n_alloc_u: u32,
    pub non_persist_cap_adj_fac: u16,
    pub enhanced_1_max_n_alloc_u: u32,
    pub enhanced_1_cap_adj_fac: u16,
    pub enhanced_2_max_n_alloc_u: u32,
    pub enhanced_2_cap_adj_fac: u16,
    pub enhanced_3_max_n_alloc_u: u32,
    pub enhanced_3_cap_adj_fac: u16,
    pub enhanced_4_max_n_alloc_u: u32,
    pub enhanced_4_cap_adj_fac: u16,
    pub optimal_logical_block_size: u32,
    pub write_booster_buffer_max_n_alloc_units: u32,
    pub device_max_write_booster_l_us: u8,
    pub write_booster_buffer_cap_adj_fac: u8,
    pub supported_write_booster_buffer_user_space_reduction_types: u8,
    pub supported_write_booster_buffer_types: u8,
    pub cap_adj_fac_representation: u8,
}

impl GeometryDesc {
    /// The descriptor that the bytes of a descriptor buffer denote.
    pub open spec fn decode(data: Seq<u8>) -> Self {
        GeometryDesc {
            length: data[0],
            descriptor_idn: data[1],
            media_technology: data[2],
            total_raw_device_capacity: endian::be_value(data.subrange(4, 12)) as u64,
            max_number_lu: data[12],
            segment_size: endian::be_value(data.subrange(13, 17)) as u32,
            allocation_unit_size: data[17],
            min_addr_block_size: data[18],
            optimal_read_block_size: data[19],
            optimal_write_block_size: data[20],
            max_in_buffer_size: data[21],
            max_out_buffer_size: data[22],
            rpmb_read_write_size: data[23],
            dynamic_capacity_resource_policy: data[24],
            data_ordering: data[25],
            max_context_id_number: data[26],
            sys_data_tag_unit_size: data[27],
            sys_data_tag_res_size: data[28],
            supported_sec_r_types: data[29],
            supported_memory_types: endian::be_value(data.subrange(30, 32)) as u16,
            system_code_max_n_alloc_u: endian::be_value(data.subrange(32, 36)) as u32,
            system_code_cap_adj_fac: endian::be_value(data.subrange(36, 38)) as u16,
            non_persist_max_n_alloc_u: endian::be_value(data.subrange(38, 42)) as u32,
            non_persist_cap_adj_fac: endian::be_value(data.subrange(42, 44)) as u16,
            enhanced_1_max_n_alloc_u: endian::be_value(data.subrange(44, 48)) as u32,
            enhanced_1_cap_adj_fac: endian::be_value(data.subrange(48, 50)) as u16,
            enhanced_2_max_n_alloc_u: endian::be_value(data.subrange(50, 54)) as u32,
            enhanced_2_cap_adj_fac: endian::be_value(data.subrange(54, 56)) as u16,
            enhanced_3_max_n_alloc_u: endian::be_value(data.subrange(56, 60)) as u32,
            enhanced_3_cap_adj_fac: endian::be_value(data.subrange(60, 62)) as u16,
            enhanced_4_max_n_alloc_u: endian::be_value(data.subrange(62, 66)) as u32,
            enhanced_4_cap_adj_fac: endian::be_value(data.subrange(66, 68)) as u16,
            optimal_logical_block_size: endian::be_value(data.subrange(68, 72)) as u32,
            write_booster_buffer_max_n_alloc_units: endian::be_value(data.subrange(79, 83)) as u32,
            device_max_write_booster_l_us: data[83],
            write_booster_buffer_cap_adj_fac: data[84],
            supported_write_booster_buffer_user_space_reduction_types: data[85],
            supported_write_booster_buffer_types: data[86],
            cap_adj_fac_representation: data[104],
        }
    }

    /// Decodes the descriptor from a descriptor buffer.
    pub fn from_buffer(buffer: DescBuffer) -> (r: Self)
        ensures
            r == Self::decode(buffer.data@),
    {
        GeometryDesc {
            length: buffer.data[0],
            descriptor_idn: buffer.data[1],
            media_technology: buffer.data[2],
            total_raw_device_capacity: get_be64(&buffer.data, 4),
            max_number_lu: buffer.data[12],
            segment_size: get_be32(&buffer.data, 13),
            allocation_unit_size: buffer.data[17],
            min_addr_block_size: buffer.data[18],
            optimal_read_block_size: buffer.data[19],
            optimal_write_block_size: buffer.data[20],
            max_in_buffer_size: buffer.data[21],
            max_out_buffer_size: buffer.data[22],
            rpmb_read_write_size: buffer.data[23],
            dynamic_capacity_resource_policy: buffer.data[24],
            data_ordering: buffer.data[25],
            max_context_id_number: buffer.data[26],
            sys_data_tag_unit_size: buffer.data[27],
            sys_data_tag_res_size: buffer.data[28],
            supported_sec_r_types: buffer.data[29],
            supported_memory_types: get_be16(&buffer.data, 30),
            system_code_max_n_alloc_u: get_be32(&buffer.data, 32),
            system_code_cap_adj_fac: get_be16(&buffer.data, 36),
            non_persist_max_n_alloc_u: get_be32(&buffer.data, 38),
            non_persist_cap_adj_fac: get_be16(&buffer.data, 42),
            enhanced_1_max_n_alloc_u: get_be32(&buffer.data, 44),
            enhanced_1_cap_adj_fac: get_be16(&buffer.data, 48),
            enhanced_2_max_n_alloc_u: get_be32(&buffer.data, 50),
            enhanced_2_cap_adj_fac: get_be16(&buffer.data, 54),
            enhanced_3_max_n_alloc_u: get_be32(&buffer.data, 56),
            enhanced_3_cap_adj_fac: get_be16(&buffer.data, 60),
            enhanced_4_max_n_alloc_u: get_be32(&buffer.data, 62),
            enhanced_4_cap_adj_fac: get_be16(&buffer.data, 66),
            optimal_logical_block_size: get_be32(&buffer.data, 68),
            write_booster_buffer_max_n_alloc_units: get_be32(&buffer.data, 79),
            device_max_write_booster_l_us: buffer.data[83],
            write_booster_buffer_cap_adj_fac: buffer.data[84],
            supported_write_booster_buffer_user_space_reduction_types: buffer.data[85],
            supported_write_booster_buffer_types: buffer.data[86],
            cap_adj_fac_representation: buffer.data[104],
        }
    }
}

/// A unit descriptor, with its integers in host byte order.
#[derive(Clone, Copy, Debug, PartialEq, Eq, Structural)]
pub struct UnitDesc {
    pub length: u8,
    pub descriptor_idn: u8,
    pub unit_index: u8,
    pub lu_enable: u8,
    pub boot_lun_id: u8,
    pub lu_write_protect: u8,
    pub lu_queue_depth: u8,
    pub psa_sensitive: u8,
    pub memory_type: u8,
    pub data_reliability: u8,
    pub logical_block_size: u8,
    pub logical_block_count: u64,
    pub erase_block_size: u32,
    pub provisioning_type: u8,
    pub phy_mem_resource_count: u64,
    pub context_capabilities: u16,
    pub large_unit_granularity_m1: u8,
    pub lu_num_write_booster_buffer_alloc_units: u32,
}

impl UnitDesc {
    /// The descriptor that the bytes of a descriptor buffer denote.
    pub open spec fn decode(data: Seq<u8>) -> Self {
        UnitDesc {
            length: data[0],
            descriptor_idn: data[1],
            unit_index: data[2],
            lu_enable: data[3],
            boot_lun_id: data[4],
            lu_write_protect: data[5],
            lu_queue_depth: data[6],
            psa_sensitive: data[7],
            memory_type: data[8],
            data_reliability: data[9],
            logical_block_size: data[10],
            logical_block_count: endian::be_value(data.subrange(11, 19)) as u64,
            erase_block_size: endian::be_value(data.subrange(19, 23)) as u32,
            provisioning_type: data[23],
            phy_mem_resource_count: endian::be_value(data.subrange(24, 32)) as u64,
            context_capabilities: endian::be_value(data.subrange(32, 34)) as u16,
            large_unit_granularity_m1: data[34],
            lu_num_write_booster_buffer_alloc_units: endian::be_value(data.subrange(41, 45)) as u32,
        }
    }

    /// Decodes the descriptor from a descriptor buffer.
    pub fn from_buffer(buffer: DescBuffer) -> (r: Self)
        ensures
            r == Self::decode(buffer.data@),
    {
        UnitDesc {
            length: buffer.data[0],
            descriptor_idn: buffer.data[1],
            unit_index: buffer.data[2],
            lu_enable: buffer.data[3],
            boot_lun_id: buffer.data[4],
            lu_write_protect: buffer.data[5],
            lu_queue_depth: buffer.data[6],
            psa_sensitive: buffer.data[7],
            memory_type: buffer.data[8],
            data_reliability: buffer.data[9],
            logical_block_size: buffer.data[10],
            logical_block_count: get_be64(&buffer.data, 11),
            erase_block_size: get_be32(&buffer.data, 19),
            provisioning_type: buffer.data[23],
            phy_mem_resource_count: get_be64(&buffer.data, 24),
            context_capabilities: get_be16(&buffer.data, 32),
            large_unit_granularity_m1: buffer.data[34],
            lu_num_write_booster_buffer_alloc_units: get_be32(&buffer.data, 41),
        }
    }

    /// Whether the logical unit is enabled.
    pub fn enabled(&self) -> (r: bool)
        ensures
            r == (self.lu_enable != 0),
    {
        self.lu_enable != 0
    }

    /// Binary logarithm of the logical block size.
    pub fn logical_block_shift(&self) -> (r: u8)
        ensures
            r == self.logical_block_size,
    {
        self.logical_block_size
    }

    /// Number of logical blocks.
    pub fn logical_block_count(&self) -> (r: u64)
        ensures
            r == self.logical_block_count,
    {
        self.logical_block_count
    }

    /// Queue depth that the unit asks for, or zero if it shares one queue.
    pub fn lu_queue_depth(&self) -> (r: usize)
        ensures
            r == self.lu_queue_depth,
    {
        self.lu_queue_depth as usize
    }
}

/// A descriptor that has no structure of its own here.
pub type DefaultDesc = DescBuffer;

/// A descriptor of any kind.
#[derive(Clone, Copy, Debug)]
pub enum Desc {
    Device(DeviceDesc),
    Config(DefaultDesc),
    Unit(UnitDesc),
    RFU0(DefaultDesc),
    Interconn(DefaultDesc),
    String(DefaultDesc),
    RFU1(DefaultDesc),
    Geometry(GeometryDesc),
    Power(DefaultDesc),
    Health(DefaultDesc),
    Reserved,
}

impl Desc {
    /// This is what a descriptor buffer with these bytes holds, given the
    /// identification number that came with it.
    pub open spec fn describes(self, idn: u8, data: Seq<u8>) -> bool {
        match DescIdn::decode(idn) {
            DescIdn::Device => self == Desc::Device(DeviceDesc::decode(data)),
            DescIdn::Config => self matches Desc::Config(b) && b.data@ == data,
            DescIdn::Unit => self == Desc::Unit(UnitDesc::decode(data)),
            DescIdn::RFU0 => self matches Desc::RFU0(b) && b.data@ == data,
            DescIdn::Interconn => self matches Desc::Interconn(b) && b.data@ == data,
            DescIdn::String => self matches Desc::String(b) && b.data@ == data,
            DescIdn::RFU1 => self matches Desc::RFU1(b) && b.data@ == data,
            DescIdn::Geometry => self == Desc::Geometry(GeometryDesc::decode(data)),
            DescIdn::Power => self matches Desc::Power(b) && b.data@ == data,
            DescIdn::Health => self matches Desc::Health(b) && b.data@ == data,
            DescIdn::Reserved => self == Desc::Reserved,
        }
    }

    /// The device descriptor, if this is one.
    pub fn get_device(&self) -> (r: Result<DeviceDesc, Error>)
        ensures
            r == (match *self {
                Desc::Device(desc) => Ok::<DeviceDesc, Error>(desc),
                _ => Err(Error::EINVAL),
            }),
    {
        match *self {
            Desc::Device(desc) => Ok(desc),
            _ => Err(Error::EINVAL),
        }
    }

    /// The geometry descriptor, if this is one.
    pub fn get_geometry(&self) -> (r: Result<GeometryDesc, Error>)
        ensures
            r == (match *self {
                Desc::Geometry(desc) => Ok::<GeometryDesc, Error>(desc),
                _ => Err(Error::EINVAL),
            }),
    {
        match *self {
            Desc::Geometry(desc) => Ok(desc),
            _ => Err(Error::EINVAL),
        }
    }

    /// The unit descriptor, if this is one.
    pub fn get_unit(&self) -> (r: Result<UnitDesc, Error>)
        ensures
            r == (match *self {
                Desc::Unit(desc) => Ok::<UnitDesc, Error>(desc),
                _ => Err(Error::EINVAL),
            }),
    {
        match *self {
            Desc::Unit(desc) => Ok(desc),
            _ => Err(Error::EINVAL),
        }
    }

    /// Decodes a buffer as the descriptor that its identification number names.
    pub fn from_buffer(idn: u8, buffer: DescBuffer) -> (r: Self)
        ensures
            r.describes(idn, buffer.data@),
    {
        let idn = DescIdn::from(idn);
        match idn {
            DescIdn::Device => Desc::Device(DeviceDesc::from_buffer(buffer)),
            DescIdn::Config => Desc::Config(buffer),
            DescIdn::Unit => Desc::Unit(UnitDesc::from_buffer(buffer)),
            DescIdn::RFU0 => Desc::RFU0(buffer),
            DescIdn::Interconn => Desc::Interconn(buffer),
            DescIdn::String => Desc::String(buffer),
            DescIdn::RFU1 => Desc::RFU1(buffer),
            DescIdn::Geometry => Desc::Geometry(GeometryDesc::from_buffer(buffer)),
            DescIdn::Power => Desc::Power(buffer),
            DescIdn::Health => Desc::Health(buffer),
            _ => Desc::Reserved,
        }
    }
}

/// Where a device descriptor holds its fields, the most significant byte first.
pub proof fn law_device_descriptor_fields(data: Seq<u8>)
    requires
        data.len() >= 89,
    ensures
        ({
            let d = DeviceDesc::decode(data);
            &&& d.length == data[0]
            &&& d.descriptor_idn == data[1]
            &&& d.device == data[2]
            &&& d.device_class == data[3]
            &&& d.device_sub_class == data[4]
            &&& d.protocol == data[5]
            &&& d.number_lu == data[6]
            &&& d.number_wlu == data[7]
            &&& d.boot_enable == data[8]
            &&& d.descr_access_en == data[9]
            &&& d.init_power_mode == data[10]
            &&& d.high_priority_lun == data[11]
            &&& d.secure_removal_type == data[12]
            &&& d.security_lu == data[13]
            &&& d.background_ops_term_lat == data[14]
            &&& d.init_active_icc_level == data[15]
            &&& d.spec_version == data[16] * 0x100 + data[17]
            &&& d.manufacture_date == data[18] * 0x100 + data[19]
            &&& d.manufacturer_name == data[20]
            &&& d.product_name == data[21]
            &&& d.serial_number == data[22]
            &&& d.oem_id == data[23]
            &&& d.manufacturer_id == data[24] * 0x100 + data[25]
            &&& d.ud_0_base_offset == data[26]
            &&& d.ud_config_p_length == data[27]
            &&& d.device_rtt_cap == data[28]
            &&& d.periodic_rtc_update == data[29] * 0x100 + data[30]
            &&& d.ufs_features_support == data[31]
            &&& d.ffu_timeout == data[32]
            &&& d.queue_depth == data[33]
            &&& d.device_version == data[34] * 0x100 + data[35]
            &&& d.num_secure_wp_area == data[36]
            &&& d.psa_max_data_size == data[37] * 0x100_0000 + data[38] * 0x1_0000
                + data[39] * 0x100 + data[40]
            &&& d.psa_state_timeout == data[41]
            &&& d.product_revision_level == data[42]
            &&& d.extended_wb_support == data[77] * 0x100 + data[78]
            &&& d.extended_ufs_features_support == data[79] * 0x100_0000 + data[80] * 0x1_0000
                + data[81] * 0x100 + data[82]
            &&& d.write_booster_buffer_preserve_user_space_en == data[83]
            &&& d.write_booster_buffer_type == data[84]
            &&& d.num_shared_write_booster_buffer_alloc_units == data[85] * 0x100_0000
                + data[86] * 0x1_0000 + data[87] * 0x100 + data[88]
        }),
{
    endian::law_be_value_is_positional(data.subrange(16, 18));
    endian::law_be_value_is_positional(data.subrange(18, 20));
    endian::law_be_value_is_positional(data.subrange(24, 26));
    endian::law_be_value_is_positional(data.subrange(29, 31));
    endian::law_be_value_is_positional(data.subrange(34, 36));
    endian::law_be_value_is_positional(data.subrange(37, 41));
    endian::law_be_value_is_positional(data.subrange(77, 79));
    endian::law_be_value_is_positional(data.subrange(79, 83));
    endian::law_be_value_is_positional(data.subrange(85, 89));
}

/// Where a geometry descriptor holds its fields, the most significant byte first.
pub proof fn law_geometry_descriptor_fields(data: Seq<u8>)
    requires
        data.len() >= 105,
    ensures
        ({
            let d = GeometryDesc::decode(data);
            &&& d.length == data[0]
            &&& d.descriptor_idn == data[1]
            &&& d.media_technology == data[2]
            &&& d.total_raw_device_capacity == data[4] * 0x100_0000_0000_0000
                + data[5] * 0x1_0000_0000_0000 + data[6] * 0x100_0000_0000
                + data[7] * 0x1_0000_0000 + data[8] * 0x100_0000 + data[9] * 0x1_0000
                + data[10] * 0x100 + data[11]
            &&& d.max_number_lu == data[12]
            &&& d.segment_size == data[13] * 0x100_0000 + data[14] * 0x1_0000 + data[15] * 0x100
                + data[16]
            &&& d.allocation_unit_size == data[17]
            &&& d.min_addr_block_size == data[18]
            &&& d.optimal_read_block_size == data[19]
            &&& d.optimal_write_block_size == data[20]
            &&& d.max_in_buffer_size == data[21]
            &&& d.max_out_buffer_size == data[22]
            &&& d.rpmb_read_write_size == data[23]
            &&& d.dynamic_capacity_resource_policy == data[24]
            &&& d.data_ordering == data[25]
            &&& d.max_context_id_number == data[26]
            &&& d.sys_data_tag_unit_size == data[27]
            &&& d.sys_data_tag_res_size == data[28]
            &&& d.supported_sec_r_types == data[29]
            &&& d.supported_memory_types == data[30] * 0x100 + data[31]
            &&& d.system_code_max_n_alloc_u == data[32] * 0x100_0000 + data[33] * 0x1_0000
                + data[34] * 0x100 + data[35]
            &&& d.system_code_cap_adj_fac == data[36] * 0x100 + data[37]
            &&& d.non_persist_max_n_alloc_u == data[38] * 0x100_0000 + data[39] * 0x1_0000
                + data[40] * 0x100 + data[41]
            &&& d.non_persist_cap_adj_fac == data[42] * 0x100 + data[43]
            &&& d.enhanced_1_max_n_alloc_u == data[44] * 0x100_0000 + data[45] * 0x1_0000
                + data[46] * 0x100 + data[47]
            &&& d.enhanced_1_cap_adj_fac == data[48] * 0x100 + data[49]
            &&& d.enhanced_2_max_n_alloc_u == data[50] * 0x100_0000 + data[51] * 0x1_0000
                + data[52] * 0x100 + data[53]
            &&& d.enhanced_2_cap_adj_fac == data[54] * 0x100 + data[55]
            &&& d.enhanced_3_max_n_alloc_u == data[56] * 0x100_0000 + data[57] * 0x1_0000
                + data[58] * 0x100 + data[59]
            &&& d.enhanced_3_cap_adj_fac == data[60] * 0x100 + data[61]
            &&& d.enhanced_4_max_n_alloc_u == data[62] * 0x100_0000 + data[63] * 0x1_0000
                + data[64] * 0x100 + data[65]
            &&& d.enhanced_4_cap_adj_fac == data[66] * 0x100 + data[67]
            &&& d.optimal_logical_block_size == data[68] * 0x100_0000 + data[69] * 0x1_0000
                + data[70] * 0x100 + data[71]
            &&& d.write_booster_buffer_max_n_alloc_units == data[79] * 0x100_0000
                + data[80] * 0x1_0000 + data[81] * 0x100 + data[82]
            &&& d.device_max_write_booster_l_us == data[83]
            &&& d.write_booster_buffer_cap_adj_fac == data[84]
            &&& d.supported_write_booster_buffer_user_space_reduction_types == data[85]
            &&& d.supported_write_booster_buffer_types == data[86]
            &&& d.cap_adj_fac_representation == data[104]
        }),
{
    endian::law_be_value_is_positional(data.subrange(4, 12));
    endian::law_be_value_is_positional(data.subrange(13, 17));
    endian::law_be_value_is_positional(data.subrange(30, 32));
    endian::law_be_value_is_positional(data.subrange(32, 36));
    endian::law_be_value_is_positional(data.subrange(36, 38));
    endian::law_be_value_is_positional(data.subrange(38, 42));
    endian::law_be_value_is_positional(data.subrange(42, 44));
    endian::law_be_value_is_positional(data.subrange(44, 48));
    endian::law_be_value_is_positional(data.subrange(48, 50));
    endian::law_be_value_is_positional(data.subrange(50, 54));
    endian::law_be_value_is_positional(data.subrange(54, 56));
    endian::law_be_value_is_positional(data.subrange(56, 60));
    endian::law_be_value_is_positional(data.subrange(60, 62));
    endian::law_be_value_is_positional(data.subrange(62, 66));
    endian::law_be_value_is_positional(data.subrange(66, 68));
    endian::law_be_value_is_positional(data.subrange(68, 72));
    endian::law_be_value_is_positional(data.subrange(79, 83));
}

/// Where a unit descriptor holds its fields, the most significant byte first.
pub proof fn law_unit_descriptor_fields(data: Seq<u8>)
    requires
        data.len() >= 45,
    ensures
        ({
            let d = UnitDesc::decode(data);
            &&& d.length == data[0]
            &&& d.descriptor_idn == data[1]
            &&& d.unit_index == data[2]
            &&& d.lu_enable == data[3]
            &&& d.boot_lun_id == data[4]
            &&& d.lu_write_protect == data[5]
            &&& d.lu_queue_depth == data[6]
            &&& d.psa_sensitive == data[7]
            &&& d.memory_type == data[8]
            &&& d.data_reliability == data[9]
            &&& d.logical_block_size == data[10]
            &&& d.logical_block_count == data[11] * 0x100_0000_0000_0000
                + data[12] * 0x1_0000_0000_0000 + data[13] * 0x100_0000_0000
                + data[14] * 0x1_0000_0000 + data[15] * 0x100_0000 + data[16] * 0x1_0000
                + data[17] * 0x100 + data[18]
            &&& d.erase_block_size == data[19] * 0x100_0000 + data[20] * 0x1_0000
                + data[21] * 0x100 + data[22]
            &&& d.provisioning_type == data[23]
            &&& d.phy_mem_resource_count == data[24] * 0x100_0000_0000_0000
                + data[25] * 0x1_0000_0000_0000 + data[26] * 0x100_0000_0000
                + data[27] * 0x1_0000_0000 + data[28] * 0x100_0000 + data[29] * 0x1_0000
                + data[30] * 0x100 + data[31]
            &&& d.context_capabilities == data[32] * 0x100 + data[33]
            &&& d.large_unit_granularity_m1 == data[34]
            &&& d.lu_num_write_booster_buffer_alloc_units == data[41] * 0x100_0000
                + data[42] * 0x1_0000 + data[43] * 0x100 + data[44]
        }),
{
    endian::law_be_value_is_positional(data.subrange(11, 19));
    endian::law_be_value_is_positional(data.subrange(19, 23));
    endian::law_be_value_is_positional(data.subrange(24, 32));
    endian::law_be_value_is_positional(data.subrange(32, 34));
    endian::law_be_value_is_positional(data.subrange(41, 45));
}

/// What a descriptor is taken for follows from the number that came with it: 0 is
/// a device descriptor, 2 a unit descriptor, 7 a geometry descriptor; the others
/// that are known are kept as they are.
pub proof fn law_number_tells_descriptor(desc: Desc, idn: u8, data: Seq<u8>)
    requires
        desc.describes(idn, data),
    ensures
        idn == 0 <==> desc is Device,
        idn == 1 <==> desc is Config,
        idn == 2 <==> desc is Unit,
        idn == 3 <==> desc is RFU0,
        idn == 4 <==> desc is Interconn,
        idn == 5 <==> desc is String,
        idn == 6 <==> desc is RFU1,
        idn == 7 <==> desc is Geometry,
        idn == 8 <==> desc is Power,
        idn == 9 <==> desc is Health,
        idn > 9 <==> desc is Reserved,
        desc matches Desc::Device(d) ==> d == DeviceDesc::decode(data),
        desc matches Desc::Unit(d) ==> d == UnitDesc::decode(data),
        desc matches Desc::Geometry(d) ==> d == GeometryDesc::decode(data),
        desc matches Desc::Config(b) ==> b.data@ == data,
        desc matches Desc::RFU0(b) ==> b.data@ == data,
        desc matches Desc::Interconn(b) ==> b.data@ == data,
        desc matches Desc::String(b) ==> b.data@ == data,
        desc matches Desc::RFU1(b) ==> b.data@ == data,
        desc matches Desc::Power(b) ==> b.data@ == data,
        desc matches Desc::Health(b) ==> b.data@ == data,
{
}

} // verus!
