//! DWC3, Qualcomm glue, PHY and Apps-SMMU register map, and the address
//! arithmetic that turns a block base and an offset into an MMIO address.

use vstd::prelude::*;

verus! {

pub const SMMU_ID0: usize = 0x20;
pub const SMMU_ID1: usize = 0x24;
pub const SMMU_ID0_NUMSMRG_MASK: u32 = 0xff;
pub const SMMU_ID1_PAGESIZE: u32 = 0x8000_0000;
pub const SMMU_ID1_NUMPAGENDXB_SHIFT: u32 = 28;
pub const SMMU_ID1_NUMPAGENDXB_MASK: u32 = 0x7;
pub const SMMU_ID1_NUMS2CB_SHIFT: u32 = 16;
pub const SMMU_ID1_NUMS2CB_MASK: u32 = 0xff;
pub const SMMU_ID1_NUMCB_MASK: u32 = 0xff;
pub const SMMU_SMR_BASE: usize = 0x800;
pub const SMMU_S2CR_BASE: usize = 0xc00;
pub const SMMU_TLB_ALL_H: usize = 0x6c;
pub const SMMU_TLB_SYNC: usize = 0x70;
pub const SMMU_TLB_STATUS: usize = 0x74;
pub const SMMU_TLB_STATUS_ACTIVE: u32 = 1;
pub const SMMU_SMR_VALID: u32 = 0x8000_0000;
pub const SMMU_SMR_MASK_SHIFT: u32 = 16;
pub const SMMU_S2CR_TYPE_MASK: u32 = 0x3_0000;
pub const SMMU_S2CR_TYPE_TRANS: u32 = 0;
pub const SMMU_S2CR_TYPE_BYPASS: u32 = 0x1_0000;
pub const SMMU_S2CR_CBNDX_MASK: u32 = 0xff;
pub const SMMU_GR1_CBAR_BASE: usize = 0x00;
pub const SMMU_GR1_CBA2R_BASE: usize = 0x800;
pub const SMMU_CBA2R_VA64: u32 = 1;
pub const SMMU_CBAR_IRPTNDX_MASK: u32 = 0xff;
pub const SMMU_CBAR_S1_TRANS_S2_BYPASS: u32 = 0x1_0000;
pub const SMMU_CBAR_S1_MEMATTR_WB: u32 = 0xf000;
pub const SMMU_CBAR_S1_BPSHCFG_NSH: u32 = 0x300;
pub const SMMU_CB_SCTLR: usize = 0x00;
pub const SMMU_CB_TCR2: usize = 0x10;
pub const SMMU_CB_TTBR0: usize = 0x20;
pub const SMMU_CB_TTBR1: usize = 0x28;
pub const SMMU_CB_TCR: usize = 0x30;
pub const SMMU_CB_CONTEXTIDR: usize = 0x34;
pub const SMMU_CB_MAIR0: usize = 0x38;
pub const SMMU_CB_MAIR1: usize = 0x3c;
pub const SMMU_CB_RESUME: usize = 0x08;
pub const SMMU_CB_FSR: usize = 0x58;
pub const SMMU_CB_FAR: usize = 0x60;
pub const SMMU_CB_FSYNR0: usize = 0x68;
pub const SMMU_GR0_FSR: usize = 0x48;
pub const SMMU_GR0_FSYNR0: usize = 0x50;
pub const SMMU_RESUME_TERMINATE: u32 = 1;
pub const SMMU_GLOBAL_FSR_FAULT: u32 = 2;
pub const SMMU_FSR_SS: u32 = 0x4000_0000;
pub const SMMU_FSR_FAULT: u32 = 0xc000_01fe;
pub const SMMU_SCTLR_S1_ASIDPNE: u32 = 0x1000;
pub const SMMU_SCTLR_CFIE: u32 = 0x40;
pub const SMMU_SCTLR_CFRE: u32 = 0x20;
pub const SMMU_SCTLR_AFE: u32 = 4;
pub const SMMU_SCTLR_TRE: u32 = 2;
pub const SMMU_SCTLR_M: u32 = 1;
pub const SMMU_GR0_SCR0: usize = 0x00;
pub const SMMU_SCR0_GFRE: u32 = 2;
pub const SMMU_SCR0_GFIE: u32 = 4;
pub const SMMU_SCR0_GCFGFRE: u32 = 0x10;
pub const SMMU_SCR0_GCFGFIE: u32 = 0x20;
pub const SMMU_TCR_EPD1: u32 = 0x80_0000;
pub const SMMU_TCR_SH0_INNER: u32 = 0x3000;
pub const SMMU_TCR_ORGN0_WBWA: u32 = 0x400;
pub const SMMU_TCR_IRGN0_WBWA: u32 = 0x100;
pub const SMMU_TCR_T0SZ_32BIT: u32 = 32;
pub const SMMU_TCR_T0SZ_39BIT: u32 = 25;
pub const SMMU_TCR2_SEP_UPSTREAM: u32 = 0x3_8000;
pub const SMMU_TCR2_AS: u32 = 0x10;
pub const SMMU_TCR2_PASIZE_40BIT: u32 = 2;
pub const SMMU_DESC_VALID: u64 = 1;
pub const SMMU_DESC_TABLE: u64 = 3;
pub const SMMU_DESC_BLOCK: u64 = 1;
pub const SMMU_DESC_TYPE_MASK: u64 = 3;
pub const SMMU_DESC_ADDRESS_MASK: u64 = 0x000f_ffff_ffff_f000;
pub const SMMU_DESC_AF: u64 = 0x400;
pub const SMMU_DESC_SH_INNER: u64 = 0x300;
pub const SMMU_DESC_ATTR_NORMAL: u64 = 0;
pub const SMMU_DESC_XN: u64 = 0x60_0000_0000_0000;
pub const QSCRATCH_HS_PHY_CTRL: usize = 0x10;
pub const QSCRATCH_CGCTL: usize = 0x28;
pub const QSCRATCH_SS_PHY_CTRL: usize = 0x30;
pub const QSCRATCH_GENERAL_CFG: usize = 0x08;
pub const QSCRATCH_GENERAL_CFG_XHCI_REV: u32 = 4;
pub const QSCRATCH_PWR_EVENT_STATUS: usize = 0x58;
pub const QSCRATCH_PWR_EVENT_MASK: usize = 0x5c;
pub const PWR_EVENT_POWERDOWN_IN_P3: u32 = 4;
pub const PWR_EVENT_POWERDOWN_OUT_P3: u32 = 8;
pub const PWR_EVENT_LPM_IN_L2: u32 = 0x10;
pub const PWR_EVENT_LPM_OUT_L2: u32 = 0x20;
pub const PWR_EVENT_LPM_OUT_L1: u32 = 0x2000;
pub const GCTL: usize = 0xc110;
pub const GUCTL: usize = 0xc12c;
pub const GUCTL2: usize = 0xc19c;
pub const GTXFIFOSIZ0: usize = 0xc300;
pub const GUCTL1: usize = 0xc11c;
pub const GUCTL3: usize = 0xc60c;
pub const GSNPSID: usize = 0xc120;
pub const GRXTHRCFG: usize = 0xc10c;
pub const GSBUSCFG1: usize = 0xc104;
pub const GHWPARAMS0: usize = 0xc140;
pub const GHWPARAMS1: usize = 0xc144;
pub const GHWPARAMS3: usize = 0xc14c;
pub const GHWPARAMS7: usize = 0xc15c;
pub const GDBGLTSSM: usize = 0xc164;
pub const DWC31_LINK_GDBGLTSSM: usize = 0xd050;
pub const DWC31_LINK_LU3LFPSRXTIM0: usize = 0xd010;
pub const DWC31_LINK_LU3LFPSRXTIM_GEN2_MASK: u32 = 0xff_0000;
pub const DWC31_LINK_LU3LFPSRXTIM_GEN1_MASK: u32 = 0xff;
pub const DWC31_LINK_LU3LFPSRXTIM_GEN2_BRAMBLE: u32 = 0x6_0000;
pub const DWC31_LINK_LU3LFPSRXTIM_GEN1_BRAMBLE: u32 = 5;
pub const VER_NUMBER: usize = 0xc1a0;
pub const VER_TYPE: usize = 0xc1a4;
pub const GFLADJ: usize = 0xc630;
pub const GUSB2PHYCFG0: usize = 0xc200;
pub const GUSB3PIPECTL0: usize = 0xc2c0;
pub const GUSB2PHYCFG_ULPI_UTMI: u32 = 0x10;
pub const GUSB2PHYCFG_PHYIF_MASK: u32 = 8;
pub const GUSB2PHYCFG_USBTRDTIM_MASK: u32 = 0x3c00;
pub const GUSB2PHYCFG_USBTRDTIM_UTMI_8_BIT: u32 = 0x2400;
pub const GUSB2PHYCFG_USBTRDTIM_UTMI_16_BIT: u32 = 0x1400;
pub const GUSB2PHYCFG_U2_FREECLK_EXISTS: u32 = 0x4000_0000;
pub const GEVNTADRLO0: usize = 0xc400;
pub const GEVNTADRHI0: usize = 0xc404;
pub const GEVNTSIZ0: usize = 0xc408;
pub const GEVNTCOUNT0: usize = 0xc40c;
pub const DEV_IMOD0: usize = 0xca00;
pub const GEVNT_BUFFER_STRIDE: usize = 0x10;
pub const DCFG: usize = 0xc700;
pub const DCTL: usize = 0xc704;
pub const DEVTEN: usize = 0xc708;
pub const DSTS: usize = 0xc70c;
pub const DALEPENA: usize = 0xc720;
pub const DEP_BASE: usize = 0xc800;
pub const GCTL_PRTCAPDIR_MASK: u32 = 0x3000;
pub const GCTL_PRTCAP_DEVICE: u32 = 0x2000;
pub const GCTL_PWRDNSCALE_MASK: u32 = 0xfff8_0000;
pub const GCTL_PWRDNSCALE_2: u32 = 0x10_0000;
pub const GCTL_U2RSTECN: u32 = 0x1_0000;
pub const GCTL_SOFITPSYNC: u32 = 0x400;
pub const GCTL_SCALEDOWN_MASK: u32 = 0x30;
pub const GCTL_DISSCRAMBLE: u32 = 8;
pub const GCTL_U2EXIT_LFPS: u32 = 4;
pub const GCTL_CORESOFTRESET: u32 = 0x800;
pub const GCTL_GBLHIBERNATIONEN: u32 = 2;
pub const GHWPARAMS1_EN_PWROPT_MASK: u32 = 0x300_0000;
pub const GHWPARAMS1_EN_PWROPT_HIB: u32 = 0x200_0000;
pub const GCTL_DSBLCLKGTNG: u32 = 1;
pub const GUCTL_REFCLKPER_MASK: u32 = 0xffc0_0000;
pub const GUCTL_REFCLKPER_19_2MHZ: u32 = 0xd00_0000;
pub const GFLADJ_REFCLK_FLADJ_MASK: u32 = 0x003f_ff00;
pub const GFLADJ_REFCLK_LPM_SEL: u32 = 0x80_0000;
pub const GFLADJ_REFCLK_240MHZ_DECR: u32 = 0xc00_0000;
pub const GFLADJ_REFCLK_240MHZDECR_PLS1: u32 = 0x8000_0000;
pub const GFLADJ_REFCLK_FLADJ_19_2MHZ: u32 = 0xc800;
pub const GUSB2PHYCFG_SUSPHY: u32 = 0x40;
pub const GUSB2PHYCFG_ENBLSLPM: u32 = 0x100;
pub const GUSB2PHYCFG_PHYSOFTRST: u32 = 0x8000_0000;
pub const GUCTL1_L1_SUSP_THRLD_EN_FOR_HOST: u32 = 0x100;
pub const GUCTL1_DEV_L1_EXIT_BY_HW: u32 = 0x100_0000;
pub const GUCTL1_IP_GAP_ADD_ON: u32 = 0x20_0000;
pub const GUCTL3_USB20_RETRY_DISABLE: u32 = 0x1_0000;
pub const GSBUSCFG1_PIPETRANSLIMIT_MASK: u32 = 0xf00;
pub const GSBUSCFG1_PIPETRANSLIMIT_E: u32 = 0xe00;
pub const GUSB3PIPECTL_SUSPHY: u32 = 0x2_0000;
pub const GUSB3PIPECTL_UX_EXIT_PX: u32 = 0x800_0000;
pub const GUSB3PIPECTL_PHYSOFTRST: u32 = 0x8000_0000;
pub const DCTL_CSFTRST: u32 = 0x4000_0000;
pub const DCTL_SDIS: u32 = 1;
pub const DCTL_APPL1RES: u32 = 0x80_0000;
pub const DCTL_HIRD_THRES_MASK: u32 = 0x1f00_0000;
pub const DCTL_HIRD_THRES_LITO: u32 = 0x1000_0000;
pub const DCTL_HIRD_THRES_XBL: u32 = 0x700_0000;
pub const DCTL_L1_HIBER_EN: u32 = 0x4_0000;
pub const DCTL_KEEP_CONNECT: u32 = 0x8_0000;
pub const DCTL_TSTCTRL_MASK: u32 = 0x1e;
pub const DCTL_TRGTULST_MASK: u32 = 0x1e_0000;
pub const DCTL_TRGTULST_RX_DET: u32 = 0xa_0000;
pub const DCFG_NUMP_SHIFT: u32 = 17;
pub const DCFG_NUMP_MASK: u32 = 0x3e_0000;
pub const DCFG_LPM_CAP: u32 = 0x40_0000;
pub const DCFG_IGNSTRMPP: u32 = 0x80_0000;
pub const DWC3_GRXTHRCFG_PKTCNTSEL: u32 = 0x2000_0000;
pub const DWC31_GRXTHRCFG_PKTCNTSEL: u32 = 0x400_0000;
pub const GHWPARAMS0_MDWIDTH_SHIFT: u32 = 8;
pub const GHWPARAMS0_MDWIDTH_MASK: u32 = 0xff;
pub const GHWPARAMS7_RAM2_DEPTH_SHIFT: u32 = 16;
pub const GHWPARAMS7_RAM2_DEPTH_MASK: u32 = 0xffff;
pub const DWC3_IP: u32 = 0x5533;
pub const DWC31_IP: u32 = 0x3331;
pub const DWC32_IP: u32 = 0x3332;
pub const DWC31_REVISION_180A: u32 = 0x3138_302a;
pub const DWC31_REVISION_190A: u32 = 0x3139_302a;
pub const DWC3_REVISION_187A: u32 = 0x5533_187a;
pub const DWC3_REVISION_190A: u32 = 0x5533_190a;
pub const DWC3_REVISION_194A: u32 = 0x5533_194a;
pub const DWC3_REVISION_220A: u32 = 0x5533_220a;
pub const DWC3_REVISION_250A: u32 = 0x5533_250a;
pub const DWC3_REVISION_310A: u32 = 0x5533_310a;
pub const DWC3_REVISION_270A: u32 = 0x5533_270a;
pub const DWC3_REVISION_290A: u32 = 0x5533_290a;
pub const DWC3_REVISION_IS_DWC31: u32 = 0x8000_0000;
pub const DWC3_USB31_REVISION_170A: u32 = 0xb137_302a;
pub const DWC3_USB31_VER_TYPE_GA: u32 = 0x6761_2a2a;
pub const GUCTL2_RST_ACTBITLATER: u32 = 0x4000;
pub const HSPHY_UTMI_CTRL0: usize = 0x3c;
pub const HSPHY_UTMI_CTRL5: usize = 0x50;
pub const HSPHY_COMMON0: usize = 0x54;
pub const HSPHY_COMMON1: usize = 0x58;
pub const HSPHY_COMMON2: usize = 0x5c;
pub const HSPHY_CTRL1: usize = 0x60;
pub const HSPHY_CTRL2: usize = 0x64;
pub const HSPHY_CFG0: usize = 0x94;
pub const HSPHY_REFCLK_CTRL: usize = 0xa0;
pub const HSPHY_RTUNE_SEL: usize = 0xb4;
pub const HSPHY_TEST0: usize = 0x80;
pub const HSPHY_TEST1: usize = 0x84;
pub const HSPHY_UTMI_SLEEPM: u32 = 1;
pub const HSPHY_UTMI_ATE_RESET: u32 = 1;
pub const HSPHY_UTMI_POR: u32 = 2;
pub const HSPHY_COMMON0_FSEL_MASK: u32 = 0x70;
pub const HSPHY_COMMON0_VATESTENB_MASK: u32 = 0x3;
pub const HSPHY_COMMON1_VBUSVLDEXTSEL0: u32 = 0x10;
pub const HSPHY_COMMON1_PLLBTUNE: u32 = 0x20;
pub const HSPHY_COMMON2_VREGBYPASS: u32 = 1;
pub const HSPHY_CTRL1_VBUSVLDEXT0: u32 = 1;
pub const HSPHY_CTRL2_SUSPEND_N: u32 = 4;
pub const HSPHY_CTRL2_SUSPEND_N_SEL: u32 = 8;
pub const HSPHY_CFG0_CMN_CTRL_OVERRIDE_EN: u32 = 2;
pub const HSPHY_TEST1_TESTDATAOUTSEL: u32 = 0x10;
pub const HSPHY_TEST1_TOGGLE_2WR: u32 = 0x40;
pub const HSPHY_TEST0_DATA_MASK: u32 = 0xff;
pub const PIPE_UTMI_CLK_SEL: u32 = 1;
pub const PIPE3_PHYSTATUS_SW: u32 = 8;
pub const PIPE_UTMI_CLK_DIS: u32 = 0x100;
pub const GSI_TRB_ADDR_BIT_53: u32 = 0x20_0000;
pub const GSI_TRB_ADDR_BIT_55: u32 = 0x80_0000;
pub const GSI_CLK_EN: u32 = 0x1000;
pub const GSI_RESTART_DBL_PNTR: u32 = 0x10_0000;
pub const GSI_EN: u32 = 1;
pub const GSI_BLOCK_WR_GO: u32 = 2;
pub const GSI_EVENT_INTR_MASK: u32 = 0x8000_0000;
pub const GSI_EVENT_ADDR_EN_SHIFT: u32 = 22;
pub const GSI_EVENT_ADDR_INDEX_SHIFT: u32 = 16;
pub const GSI_WR_CTRL_STATE: u32 = 0x8000;
pub const QMP_COM_PHY_MODE_CTRL: usize = 0x0000;
pub const QMP_COM_SW_RESET: usize = 0x0004;
pub const QMP_COM_POWER_DOWN_CTRL: usize = 0x0008;
pub const QMP_COM_TYPEC_CTRL: usize = 0x0010;
pub const QMP_COM_RESET_OVRD_CTRL: usize = 0x001c;
pub const QMP_PCS_STATUS1: usize = 0x1c14;
pub const QMP_PCS_STATUS2: usize = 0x1c18;
pub const QMP_PCS_AUTONOMOUS_MODE_CTRL: usize = 0x1f08;
pub const QMP_PCS_LFPS_RXTERM_IRQ_CLEAR: usize = 0x1f14;
pub const QMP_PCS_CLAMP_ENABLE: usize = 0x1c8c;
pub const QMP_PCS_POWER_DOWN_CONTROL: usize = 0x1c40;
pub const QMP_PCS_SW_RESET: usize = 0x1c00;
pub const QMP_PCS_START_CONTROL: usize = 0x1c44;
pub const QMP_PHYSTATUS: u32 = 0x40;
pub const QMP_ARCVR_DTCT_EN: u32 = 1;
pub const QMP_ALFPS_DTCT_EN: u32 = 2;
pub const QMP_ARCVR_DTCT_EVENT_SEL: u32 = 0x10;
pub const QMP_LFPS_IRQ_CLEAR: u32 = 1;
pub const QMP_CLAMP_EN: u32 = 1;
// DWC3 device/endpoint fields (Synopsys DWC3 programming model).
pub const DCFG_SPEED_MASK: u32 = 7;
pub const DCFG_DEVADDR_MASK: u32 = 0x3f8;
pub const DCFG_SUPERSPEED: u32 = 4;
pub const DCFG_HIGHSPEED: u32 = 0;
pub const DCFG_FULLSPEED: u32 = 1;
pub const DCFG_LOWSPEED: u32 = 2;
pub const DCTL_RUN_STOP: u32 = 0x8000_0000;
pub const DSTS_DEVCTRLHLT: u32 = 0x40_0000;
pub const DSTS_DCNRD: u32 = 0x2000_0000;
pub const DSTS_CONNECTSPD_MASK: u32 = 7;
pub const DSTS_SUPERSPEED: u32 = 4;
pub const GEVNTCOUNT_MASK: u32 = 0xfffc;
pub const GEVNTSIZ_INTMASK: u32 = 0x8000_0000;
pub const GEVNTSIZ_SIZE_MASK: u32 = 0xffff;
pub const DEPCMD_SETEPCONFIG: u32 = 1;
pub const DEPCMD_SETTRANSFRESOURCE: u32 = 2;
pub const DEPCMD_SETSTALL: u32 = 4;
pub const DEPCMD_CLEARSTALL: u32 = 5;
pub const DEPCMD_STARTTRANSFER: u32 = 6;
pub const DEPCMD_UPDATETRANSFER: u32 = 7;
pub const DEPCMD_ENDTRANSFER: u32 = 8;
pub const DEPCMD_DEPSTARTCFG: u32 = 9;
pub const DEPCMD_CMDACT: u32 = 0x400;
pub const DEPCMD_STATUS_MASK: u32 = 0xf000;
pub const DEPCMD_HIPRI_FORCERM: u32 = 0x800;
pub const DEPCMD_CMDIOC: u32 = 0x100;
pub const DEPCMD_PARAM_SHIFT: u32 = 16;
pub const DEPCMD_ACTION_MODIFY: u32 = 0x8000_0000;
pub const DEPCFG_EP_TYPE_CONTROL: u32 = 0;
pub const DEPCFG_EP_TYPE_BULK: u32 = 4;
pub const DEPCFG_MAX_PACKET_SHIFT: u32 = 3;
pub const DEPCFG_XFER_COMPLETE_EN: u32 = 0x100;
pub const DEPCFG_XFER_IN_PROGRESS_EN: u32 = 0x200;
pub const DEPCFG_XFER_NOT_READY_EN: u32 = 0x400;
pub const DEPCFG_EP_NUMBER_SHIFT: u32 = 25;
pub const DWC3_EP_COMMAND_TIMEOUT: u32 = 50_000;
pub const DEVICE_EVENT_KIND_SHIFT: u32 = 8;
pub const DEVICE_EVENT_KIND_MASK: u32 = 0xf;
pub const DEVICE_EVENT_DISCONNECT: u32 = 0;
pub const DEVICE_EVENT_RESET: u32 = 1;
pub const DEVICE_EVENT_CONNECT_DONE: u32 = 2;
pub const DEVICE_EVENT_LINK_STATUS_CHANGE: u32 = 3;
pub const DEVICE_EVENT_WAKEUP: u32 = 4;
pub const DEVICE_EVENT_HIBERNATION_REQUEST: u32 = 5;
pub const DEVICE_EVENT_SUSPEND: u32 = 6;
pub const DEVICE_EVENT_ERRATIC_ERROR: u32 = 9;
pub const DEVICE_EVENT_CMD_COMPLETE: u32 = 10;
pub const DEVICE_EVENT_OVERFLOW: u32 = 11;
// Device event enables: one bit per device event kind.
pub const DEVTEN_DISCONNECT: u32 = 1;
pub const DEVTEN_USB_RESET: u32 = 2;
pub const DEVTEN_CONNECT_DONE: u32 = 4;
pub const DEVTEN_LINK_STATUS_CHANGE: u32 = 8;
pub const DEVTEN_WAKEUP: u32 = 0x10;
pub const DEVTEN_HIBERNATION_REQUEST: u32 = 0x20;
pub const DEVTEN_SUSPEND: u32 = 0x40;
pub const DEVTEN_ERRATIC_ERROR: u32 = 0x200;
pub const DEVTEN_CMD_COMPLETE: u32 = 0x400;
pub const DEVTEN_OVERFLOW: u32 = 0x800;
pub const INITIAL_EP0_MAX_PACKET_SIZE: u32 = 512;
pub const TRB_HWO: u32 = 1;
pub const TRB_LST: u32 = 2;
pub const TRB_CHN: u32 = 4;
pub const TRB_CSP: u32 = 8;
pub const TRB_LINK: u32 = 0x80;
pub const TRB_NORMAL: u32 = 0x10;
pub const TRB_CONTROL_SETUP: u32 = 0x20;
pub const TRB_CONTROL_STATUS2: u32 = 0x30;
pub const TRB_CONTROL_STATUS3: u32 = 0x40;
pub const TRB_CONTROL_DATA: u32 = 0x50;
pub const TRB_ISP_IMI: u32 = 0x400;
pub const TRB_IOC: u32 = 0x800;


/// The number of QMP register slots a board contract may relocate.
pub const QMP_CONTRACT_SLOTS: usize = 16;
/// Marker for a QMP slot the board contract leaves at its default offset.
pub const QMP_OFFSET_DEFAULT: usize = 0xffff;

/// The MMIO windows of the USB blocks and the board's QMP register layout.
pub struct UsbResources {
    pub dwc3_base: usize,
    pub apps_smmu_base: usize,
    pub hs_phy_base: usize,
    pub qmp_phy_base: usize,
    pub qscratch_base: usize,
    pub qmp_reg_offsets: Vec<usize>,
}

/// Address of a DWC3 core register.
pub fn reg(resources: &UsbResources, offset: usize) -> (address: usize)
    requires
        resources.dwc3_base + offset <= usize::MAX,
    ensures
        address == resources.dwc3_base + offset,
{
    resources.dwc3_base + offset
}

/// Address of a Qualcomm glue (QSCRATCH) register.
pub fn qscratch_reg(resources: &UsbResources, offset: usize) -> (address: usize)
    requires
        resources.qscratch_base + offset <= usize::MAX,
    ensures
        address == resources.qscratch_base + offset,
{
    resources.qscratch_base + offset
}

/// Address of a USB2 PHY register.
pub fn hsphy_reg(resources: &UsbResources, offset: usize) -> (address: usize)
    requires
        resources.hs_phy_base + offset <= usize::MAX,
    ensures
        address == resources.hs_phy_base + offset,
{
    resources.hs_phy_base + offset
}

/// Address of a QMP combo PHY register.
pub fn qmp_reg(resources: &UsbResources, offset: usize) -> (address: usize)
    requires
        resources.qmp_phy_base + offset <= usize::MAX,
    ensures
        address == resources.qmp_phy_base + offset,
{
    resources.qmp_phy_base + offset
}

/// Address of an Apps-SMMU global register.
pub fn smmu_reg(resources: &UsbResources, offset: usize) -> (address: usize)
    requires
        resources.apps_smmu_base + offset <= usize::MAX,
    ensures
        address == resources.apps_smmu_base + offset,
{
    resources.apps_smmu_base + offset
}

/// Address of a register in an Apps-SMMU page (a context bank or a global
/// register page).
pub fn smmu_page_reg(resources: &UsbResources, page_size: usize, page: usize, offset: usize) -> (address:
    usize)
    requires
        resources.apps_smmu_base + page * page_size + offset <= usize::MAX,
    ensures
        address == resources.apps_smmu_base + page * page_size + offset,
{
    assert(page * page_size <= usize::MAX) by (nonlinear_arith)
        requires
            resources.apps_smmu_base + page * page_size + offset <= usize::MAX,
            page >= 0,
            page_size >= 0,
    ;
    resources.apps_smmu_base + page * page_size + offset
}

/// Offset of an endpoint register in the DWC3 endpoint block.
pub fn dep_reg(endpoint: usize, offset: usize) -> (register: usize)
    requires
        DEP_BASE + endpoint * 0x10 + offset <= usize::MAX,
    ensures
        register == DEP_BASE + endpoint * 0x10 + offset,
{
    DEP_BASE + endpoint * 0x10 + offset
}

/// The QMP register offset for a contract slot: the board's value, or the
/// fallback when the board leaves the slot at its default.
pub fn qmp_contract_offset(resources: &UsbResources, slot: usize, fallback: usize) -> (offset: usize)
    requires
        slot < resources.qmp_reg_offsets@.len(),
    ensures
        offset == if resources.qmp_reg_offsets@[slot as int] == QMP_OFFSET_DEFAULT {
            fallback
        } else {
            resources.qmp_reg_offsets@[slot as int]
        },
{
    let offset = resources.qmp_reg_offsets[slot];
    if offset == QMP_OFFSET_DEFAULT {
        fallback
    } else {
        offset
    }
}

/// The value a masked register update writes: the bits under `mask` taken
/// from `value`, every other bit kept from `current`.
pub open spec fn masked_update(current: u32, mask: u32, value: u32) -> u32 {
    (current & !mask) | (value & mask)
}

/// The value written by a read-modify-write of a USB2 PHY register.
pub fn hsphy_update_value(current: u32, mask: u32, value: u32) -> (updated: u32)
    ensures
        updated == masked_update(current, mask, value),
        updated & mask == value & mask,
        updated & !mask == current & !mask,
{
    let updated = (current & !mask) | (value & mask);
    assert(updated & mask == value & mask && updated & !mask == current & !mask) by (bit_vector)
        requires
            updated == (current & !mask) | (value & mask),
    ;
    updated
}


/// One step of a register programming sequence on a single MMIO block.
/// A sequence is computed here and carried out by the caller in order.
#[derive(Clone, Copy, PartialEq, Eq, Debug)]
pub enum RegisterOp {
    /// Write `value` to the register at `offset`.
    Write { offset: usize, value: u32 },
    /// Read the register at `offset`, replace the bits under `mask` by
    /// those of `value`, and write it back.
    Modify { offset: usize, mask: u32, value: u32 },
    /// Read the register at `offset` back (posting the preceding writes).
    Read { offset: usize },
    /// Wait at least `us` microseconds.
    DelayUs { us: u32 },
    /// A memory barrier ordering the preceding accesses before the next.
    Barrier,
}

} // verus!
